use mlx90393::commands::MagneticFieldReturnFlags;
use mlx90393::conversions::{sensitivity_xy_of, sensitivity_z_of, MagneticBits, MagneticField};
use mlx90393::memory::{Gain, HallConf, Res3D, Resolution, TempRef, TemperatureCompensation};

fn word(v: i16) -> Option<[u8; 2]> {
    Some(v.to_be_bytes())
}

fn res19() -> Res3D {
    Res3D { x: Resolution::BIT19, y: Resolution::BIT19, z: Resolution::BIT19 }
}

#[test]
fn sensitivity_table_entries() {
    assert_eq!(sensitivity_xy_of(HallConf::TWOPHASE, Gain::ZERO, Resolution::BIT19), 787);
    assert_eq!(sensitivity_z_of(HallConf::TWOPHASE, Gain::ZERO, Resolution::BIT19), 1267);
    assert_eq!(sensitivity_xy_of(HallConf::FOURPHASE, Gain::ZERO, Resolution::BIT19), 751);
    assert_eq!(sensitivity_z_of(HallConf::FOURPHASE, Gain::ZERO, Resolution::BIT16), 9680);
    assert_eq!(sensitivity_xy_of(HallConf::FOURPHASE, Gain::SEVEN, Resolution::BIT16), 1202);
    assert_eq!(sensitivity_z_of(HallConf::TWOPHASE, Gain::ZERO, Resolution::BIT16), 10137);
    assert_eq!(sensitivity_xy_of(HallConf::TWOPHASE, Gain::FIVE, Resolution::BIT17), 1049);
}

#[test]
fn axes_are_raw_times_sensitivity() {
    let bits = MagneticBits::new(word(120), word(-50), word(300), None);
    let axes = MagneticFieldReturnFlags { x: true, y: true, z: true, t: false };
    let f = MagneticField::from_mbits(
        bits,
        axes,
        TempRef { offset: [0, 0] },
        TemperatureCompensation::Disabled,
        Gain::ZERO,
        res19(),
        HallConf::TWOPHASE,
    )
    .unwrap();
    assert_eq!(f.x, Some(120 * 787));
    assert_eq!(f.y, Some(-50 * 787));
    assert_eq!(f.z, Some(300 * 1267));
    assert_eq!(f.t, None);
}

#[test]
fn temperature_from_reference() {
    let axes = MagneticFieldReturnFlags { x: false, y: false, z: false, t: true };
    let convert = |raw: u16, tref: u16, tc: TemperatureCompensation| {
        let bits = MagneticBits::new(None, None, None, Some(raw.to_be_bytes()));
        MagneticField::from_mbits(
            bits,
            axes,
            TempRef { offset: tref.to_be_bytes() },
            tc,
            Gain::ZERO,
            res19(),
            HallConf::FOURPHASE,
        )
        .unwrap()
        .t
    };
    assert_eq!(convert(46244, 46244, TemperatureCompensation::Disabled), Some(35000));
    assert_eq!(convert(46244 + 452, 46244, TemperatureCompensation::Disabled), Some(45000));
    assert_eq!(convert(46243, 46244, TemperatureCompensation::Disabled), Some(34977));
    assert_eq!(convert(46244 + 452, 46244, TemperatureCompensation::Enabled), Some(45000));
    assert_eq!(convert(0x8000, 0x7FFF, TemperatureCompensation::Enabled), Some(35022));
    assert_eq!(convert(0x8000, 0x7FFF, TemperatureCompensation::Disabled), Some(35000 - 1449890));
}

#[test]
fn unrequested_or_missing_channels_are_refused() {
    let bits = MagneticBits::new(word(1), None, None, None);
    let axes = MagneticFieldReturnFlags { x: true, y: true, z: false, t: false };
    let f = MagneticField::from_mbits(
        bits,
        axes,
        TempRef { offset: [0, 0] },
        TemperatureCompensation::Disabled,
        Gain::ZERO,
        res19(),
        HallConf::TWOPHASE,
    );
    assert!(f.is_none());
}

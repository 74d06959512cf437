use epics::container::SingleOrVec;
use epics::dbr::{Dbr, DbrValue};
use epics::limits::{Limits, LimitSet};
use epics::messages::ErrorCondition;
use epics::records::{EnumDBR, NumericDBR, StringDBR, Timestamp};
use epics::scalar::{F32, F64};
use epics::wire::{DBRBasicType, DBRCategory, DBRType};

fn f32_single(x: f32) -> SingleOrVec<F32> {
    SingleOrVec::Single(F32 { bits: x.to_bits() })
}

fn dbr_long(x: i32) -> Dbr {
    Dbr::Long(NumericDBR {
        value: SingleOrVec::Single(x),
        ..Default::default()
    })
}

fn dbr_float(x: f32) -> Dbr {
    Dbr::Float(NumericDBR {
        value: f32_single(x),
        ..Default::default()
    })
}

fn dbr_double(x: f64) -> Dbr {
    Dbr::Double(NumericDBR {
        value: SingleOrVec::Single(F64 { bits: x.to_bits() }),
        ..Default::default()
    })
}

fn dbr_string(s: &str) -> Dbr {
    Dbr::String(StringDBR {
        status: 0,
        severity: 0,
        value: s.to_string(),
        last_updated: Timestamp { secs: 0, nanos: 0 },
    })
}

fn dbr_enum(value: u16) -> Dbr {
    Dbr::Enum(EnumDBR {
        status: 0,
        severity: 0,
        strings: vec![(0, "off".to_string()), (1, "on".to_string())],
        value,
        last_updated: Timestamp { secs: 0, nanos: 0 },
    })
}

fn all_basic_types() -> Vec<DBRBasicType> {
    vec![
        DBRBasicType::String,
        DBRBasicType::Int,
        DBRBasicType::Float,
        DBRBasicType::Enum,
        DBRBasicType::Char,
        DBRBasicType::Long,
        DBRBasicType::Double,
    ]
}

fn all_categories() -> Vec<DBRCategory> {
    vec![
        DBRCategory::Basic,
        DBRCategory::Status,
        DBRCategory::Time,
        DBRCategory::Graphics,
        DBRCategory::Control,
    ]
}

#[test]
fn single_or_vec() {
    let v = SingleOrVec::Single(500i32);
    assert!(v.convert_to::<i16>().is_ok());
    assert!(v.convert_to::<i8>().is_err());
    assert_eq!(v.as_bytes(None), vec![0x00, 0x00, 0x01, 0xF4]);
    assert_eq!(
        v.convert_to::<i16>().unwrap().as_bytes(None),
        vec![0x01, 0xF4]
    );

    let data = vec![500.23f32, 12.7f32];
    let v = SingleOrVec::Vector(data.iter().map(|x| F32 { bits: x.to_bits() }).collect());
    assert_eq!(v.get_count(), 2);
    assert_eq!(
        v.as_bytes(None),
        data.iter()
            .flat_map(|v| v.to_be_bytes())
            .collect::<Vec<u8>>()
    );
    assert_eq!(
        v.as_bytes(Some(1)),
        data.iter()
            .take(1)
            .flat_map(|v| v.to_be_bytes())
            .collect::<Vec<u8>>()
    );
    // Try converting this to an int with truncation
    let v = v.convert_to::<i16>().unwrap();
    assert_eq!(v.as_bytes(None), vec![0x01, 0xf4, 0x00, 0x0c]);

    assert_eq!(
        f32_single(455.9f32)
            .convert_to::<i32>()
            .unwrap()
            .as_bytes(Some(5)),
        vec![0x00, 0x00, 0x01, 0xc7]
    );
}

#[test]
fn encode_dbr() {
    let example_packet = [
        0x0, 0x0, 0x0, 0x0, 0x42, 0x32, 0x19, 0x99, 0x0, 0x0, 0x0, 0x0, 0x0, 0x0, 0x0, 0x2a,
    ];
    let dbr = Dbr::Long(NumericDBR {
        value: SingleOrVec::Single(42i32),
        last_updated: Timestamp {
            secs: 1741731609,
            nanos: 0,
        },
        ..Default::default()
    });
    let (_size, out_data) = dbr
        .encode_value(
            DBRType {
                basic_type: DBRBasicType::Long,
                category: DBRCategory::Time,
            },
            0,
        )
        .unwrap();
    assert_eq!(out_data.len(), example_packet.len());
    assert_eq!(out_data, example_packet);
}

#[test]
fn wire_code_roundtrip_every_pair() {
    let mut seen = Vec::new();
    for category in all_categories() {
        for basic_type in all_basic_types() {
            let t = DBRType {
                basic_type,
                category,
            };
            let code = t.to_wire_code();
            assert!(code < 35);
            assert_eq!(DBRType::from_wire_code(code), Some(t));
            assert!(!seen.contains(&code));
            seen.push(code);
        }
    }
}

#[test]
fn wire_code_known_values() {
    let t = DBRType {
        basic_type: DBRBasicType::String,
        category: DBRCategory::Basic,
    };
    assert_eq!(t.to_wire_code(), 0);
    let t = DBRType {
        basic_type: DBRBasicType::Long,
        category: DBRCategory::Time,
    };
    assert_eq!(t.to_wire_code(), 19);
    let t = DBRType {
        basic_type: DBRBasicType::Double,
        category: DBRCategory::Control,
    };
    assert_eq!(t.to_wire_code(), 34);
}

#[test]
fn wire_code_invalid_rejected() {
    for code in 35u16..300u16 {
        assert_eq!(DBRType::from_wire_code(code), None);
    }
    assert_eq!(DBRType::from_wire_code(u16::MAX), None);
    assert_eq!(DBRType::from_wire_code(35), None);
}

#[test]
fn metadata_padding_table() {
    let pad = |category, basic_type| {
        DBRType {
            basic_type,
            category,
        }
        .get_metadata_padding()
    };
    assert_eq!(pad(DBRCategory::Status, DBRBasicType::Char), 1);
    assert_eq!(pad(DBRCategory::Status, DBRBasicType::Double), 4);
    assert_eq!(pad(DBRCategory::Time, DBRBasicType::Int), 2);
    assert_eq!(pad(DBRCategory::Time, DBRBasicType::Enum), 2);
    assert_eq!(pad(DBRCategory::Time, DBRBasicType::Char), 3);
    assert_eq!(pad(DBRCategory::Time, DBRBasicType::Double), 4);
    assert_eq!(pad(DBRCategory::Graphics, DBRBasicType::Float), 2);
    assert_eq!(pad(DBRCategory::Graphics, DBRBasicType::Char), 1);
    assert_eq!(pad(DBRCategory::Control, DBRBasicType::Char), 1);
    assert_eq!(pad(DBRCategory::Basic, DBRBasicType::Char), 0);
    assert_eq!(pad(DBRCategory::Time, DBRBasicType::Long), 0);
    assert_eq!(pad(DBRCategory::Status, DBRBasicType::Int), 0);
}

#[test]
fn identity_conversion_is_observational() {
    let dbr = Dbr::Long(NumericDBR {
        status: 3,
        severity: 1,
        precision: None,
        units: "volts".to_string(),
        limits: LimitSet {
            display_limits: Limits {
                upper: Some(90),
                lower: Some(-90),
            },
            warning_limits: Limits {
                upper: None,
                lower: None,
            },
            alarm_limits: Limits {
                upper: Some(100),
                lower: None,
            },
        },
        value: SingleOrVec::Vector(vec![1, 2, 3]),
        last_updated: Timestamp { secs: 77, nanos: 5 },
    });
    match dbr.convert_to(DBRBasicType::Long).unwrap() {
        Dbr::Long(d) => {
            assert_eq!(d.status, 3);
            assert_eq!(d.severity, 1);
            assert_eq!(d.precision, None);
            assert_eq!(d.units, "volts");
            assert_eq!(d.limits.display_limits.upper, Some(90));
            assert_eq!(d.limits.display_limits.lower, Some(-90));
            assert_eq!(d.limits.alarm_limits.upper, Some(100));
            assert_eq!(d.limits.alarm_limits.lower, None);
            match d.value {
                SingleOrVec::Vector(v) => assert_eq!(v, vec![1, 2, 3]),
                _ => panic!("array shape lost"),
            }
            assert_eq!(d.last_updated, Timestamp { secs: 77, nanos: 5 });
        }
        _ => panic!("identity conversion changed the kind"),
    }

    match dbr_enum(1).convert_to(DBRBasicType::Enum).unwrap() {
        Dbr::Enum(d) => {
            assert_eq!(d.value, 1);
            assert_eq!(d.strings.len(), 2);
            assert_eq!(d.strings[1], (1, "on".to_string()));
        }
        _ => panic!("identity conversion changed the kind"),
    }

    match dbr_double(455.9).convert_to(DBRBasicType::Double).unwrap() {
        Dbr::Double(d) => match d.value {
            SingleOrVec::Single(v) => assert_eq!(v.bits, 455.9f64.to_bits()),
            _ => panic!("scalar shape lost"),
        },
        _ => panic!("identity conversion changed the kind"),
    }
}

#[test]
fn container_conversion_exactness() {
    let v = SingleOrVec::Single(500i32);
    match v.convert_to::<i16>().unwrap() {
        SingleOrVec::Single(x) => assert_eq!(x, 500i16),
        _ => panic!("scalar shape lost"),
    }
    assert_eq!(v.convert_to::<i8>().unwrap_err(), ErrorCondition::NoConvert);
    let empty: SingleOrVec<i32> = SingleOrVec::Vector(vec![]);
    assert!(empty.convert_to::<i8>().is_ok());
}

#[test]
fn float_truncation_to_integer() {
    match f32_single(455.9).convert_to::<i32>().unwrap() {
        SingleOrVec::Single(x) => assert_eq!(x, 455),
        _ => panic!("scalar shape lost"),
    }
    match dbr_double(455.9).convert_to(DBRBasicType::Long).unwrap() {
        Dbr::Long(d) => match d.value {
            SingleOrVec::Single(x) => assert_eq!(x, 455),
            _ => panic!("scalar shape lost"),
        },
        _ => panic!("wrong kind"),
    }
    match dbr_float(99.9).convert_to(DBRBasicType::Char).unwrap() {
        Dbr::Char(d) => match d.value {
            SingleOrVec::Single(x) => assert_eq!(x, 99),
            _ => panic!("scalar shape lost"),
        },
        _ => panic!("wrong kind"),
    }
    match dbr_double(-99.9).convert_to(DBRBasicType::Char).unwrap() {
        Dbr::Char(d) => match d.value {
            SingleOrVec::Single(x) => assert_eq!(x, -99),
            _ => panic!("scalar shape lost"),
        },
        _ => panic!("wrong kind"),
    }
    match dbr_double(500.9).convert_to(DBRBasicType::Int).unwrap() {
        Dbr::Int(d) => match d.value {
            SingleOrVec::Single(x) => assert_eq!(x, 500),
            _ => panic!("scalar shape lost"),
        },
        _ => panic!("wrong kind"),
    }
    // Out of range and NaN sources are refused.
    assert_eq!(
        dbr_double(1.0e10).convert_to(DBRBasicType::Long).unwrap_err(),
        ErrorCondition::NoConvert
    );
    assert_eq!(
        dbr_float(f32::NAN).convert_to(DBRBasicType::Long).unwrap_err(),
        ErrorCondition::NoConvert
    );
    assert_eq!(
        dbr_float(f32::INFINITY)
            .convert_to(DBRBasicType::Int)
            .unwrap_err(),
        ErrorCondition::NoConvert
    );
    assert_eq!(
        dbr_float(200.0).convert_to(DBRBasicType::Char).unwrap_err(),
        ErrorCondition::NoConvert
    );
}

#[test]
fn integer_to_float_images() {
    match dbr_long(500).convert_to(DBRBasicType::Float).unwrap() {
        Dbr::Float(d) => match d.value {
            SingleOrVec::Single(v) => assert_eq!(v.bits, 500.0f32.to_bits()),
            _ => panic!("scalar shape lost"),
        },
        _ => panic!("wrong kind"),
    }
    match dbr_long(500).convert_to(DBRBasicType::Double).unwrap() {
        Dbr::Double(d) => match d.value {
            SingleOrVec::Single(v) => assert_eq!(v.bits, 500.0f64.to_bits()),
            _ => panic!("scalar shape lost"),
        },
        _ => panic!("wrong kind"),
    }
    let ch = Dbr::Char(NumericDBR {
        value: SingleOrVec::Single(7i8),
        ..Default::default()
    });
    match ch.convert_to(DBRBasicType::Float).unwrap() {
        Dbr::Float(d) => match d.value {
            SingleOrVec::Single(v) => assert_eq!(v.bits, 7.0f32.to_bits()),
            _ => panic!("scalar shape lost"),
        },
        _ => panic!("wrong kind"),
    }
    match ch.convert_to(DBRBasicType::Double).unwrap() {
        Dbr::Double(d) => match d.value {
            SingleOrVec::Single(v) => assert_eq!(v.bits, 7.0f64.to_bits()),
            _ => panic!("wrong kind"),
        },
        _ => panic!("wrong kind"),
    }
    let int = Dbr::Int(NumericDBR {
        value: SingleOrVec::Single(-33i16),
        ..Default::default()
    });
    match int.convert_to(DBRBasicType::Float).unwrap() {
        Dbr::Float(d) => match d.value {
            SingleOrVec::Single(v) => assert_eq!(v.bits, (-33.0f32).to_bits()),
            _ => panic!("scalar shape lost"),
        },
        _ => panic!("wrong kind"),
    }
    match int.convert_to(DBRBasicType::Double).unwrap() {
        Dbr::Double(d) => match d.value {
            SingleOrVec::Single(v) => assert_eq!(v.bits, (-33.0f64).to_bits()),
            _ => panic!("scalar shape lost"),
        },
        _ => panic!("wrong kind"),
    }
    // A 32-bit value above the 24-bit mantissa rounds to the nearest single.
    match dbr_long(16777217).convert_to(DBRBasicType::Float).unwrap() {
        Dbr::Float(d) => match d.value {
            SingleOrVec::Single(v) => assert_eq!(v.bits, (16777217i32 as f32).to_bits()),
            _ => panic!("scalar shape lost"),
        },
        _ => panic!("wrong kind"),
    }
}

#[test]
fn float_width_conversions() {
    match dbr_float(455.9).convert_to(DBRBasicType::Double).unwrap() {
        Dbr::Double(d) => match d.value {
            SingleOrVec::Single(v) => assert_eq!(v.bits, (455.9f32 as f64).to_bits()),
            _ => panic!("scalar shape lost"),
        },
        _ => panic!("wrong kind"),
    }
    match dbr_double(455.9).convert_to(DBRBasicType::Float).unwrap() {
        Dbr::Float(d) => match d.value {
            SingleOrVec::Single(v) => assert_eq!(v.bits, (455.9f64 as f32).to_bits()),
            _ => panic!("scalar shape lost"),
        },
        _ => panic!("wrong kind"),
    }
}

#[test]
fn enum_to_numeric_resets_metadata() {
    let e = Dbr::Enum(EnumDBR {
        status: 5,
        severity: 2,
        strings: vec![(0, "a".to_string())],
        value: 300,
        last_updated: Timestamp { secs: 9, nanos: 1 },
    });
    match e.convert_to(DBRBasicType::Long).unwrap() {
        Dbr::Long(d) => {
            assert_eq!(d.status, 5);
            assert_eq!(d.severity, 2);
            assert_eq!(d.precision, None);
            assert_eq!(d.units, "");
            assert_eq!(d.limits.display_limits.upper, None);
            assert_eq!(d.limits.warning_limits.lower, None);
            assert_eq!(d.last_updated, Timestamp { secs: 9, nanos: 1 });
            match d.value {
                SingleOrVec::Single(x) => assert_eq!(x, 300),
                _ => panic!("scalar shape lost"),
            }
        }
        _ => panic!("wrong kind"),
    }
    // 300 is out of the 8-bit range but fits 16 bits.
    assert_eq!(
        e.convert_to(DBRBasicType::Char).unwrap_err(),
        ErrorCondition::NoConvert
    );
    assert!(e.convert_to(DBRBasicType::Int).is_ok());
    match e.convert_to(DBRBasicType::Float).unwrap() {
        Dbr::Float(d) => match d.value {
            SingleOrVec::Single(v) => assert_eq!(v.bits, 300.0f32.to_bits()),
            _ => panic!("scalar shape lost"),
        },
        _ => panic!("wrong kind"),
    }
    match e.convert_to(DBRBasicType::Double).unwrap() {
        Dbr::Double(d) => match d.value {
            SingleOrVec::Single(v) => assert_eq!(v.bits, 300.0f64.to_bits()),
            _ => panic!("scalar shape lost"),
        },
        _ => panic!("wrong kind"),
    }
    // Nothing but an enumerated source converts to the enumerated target.
    assert_eq!(
        dbr_long(1).convert_to(DBRBasicType::Enum).unwrap_err(),
        ErrorCondition::NoConvert
    );
}

#[test]
fn limit_conversion_can_fail_alone() {
    let dbr = Dbr::Long(NumericDBR {
        limits: LimitSet {
            display_limits: Limits {
                upper: Some(100000),
                lower: None,
            },
            warning_limits: Limits {
                upper: None,
                lower: None,
            },
            alarm_limits: Limits {
                upper: None,
                lower: None,
            },
        },
        value: SingleOrVec::Single(1i32),
        ..Default::default()
    });
    // The value fits 16 bits, the display limit does not.
    assert_eq!(
        dbr.convert_to(DBRBasicType::Int).unwrap_err(),
        ErrorCondition::NoConvert
    );
    assert!(dbr.convert_to(DBRBasicType::Double).is_ok());
}

#[test]
fn string_source_and_target_boundaries() {
    let s = dbr_string("hello");
    for target in [
        DBRBasicType::Int,
        DBRBasicType::Float,
        DBRBasicType::Enum,
        DBRBasicType::Char,
        DBRBasicType::Long,
        DBRBasicType::Double,
    ] {
        assert_eq!(s.convert_to(target).unwrap_err(), ErrorCondition::NoConvert);
    }
    // String as a target is unavailable, whatever the source.
    assert_eq!(
        s.convert_to(DBRBasicType::String).unwrap_err(),
        ErrorCondition::UnavailInServ
    );
    assert_eq!(
        dbr_long(1).convert_to(DBRBasicType::String).unwrap_err(),
        ErrorCondition::UnavailInServ
    );
    assert_eq!(
        dbr_enum(0).convert_to(DBRBasicType::String).unwrap_err(),
        ErrorCondition::UnavailInServ
    );
    assert_eq!(
        dbr_float(1.0).convert_to(DBRBasicType::String).unwrap_err(),
        ErrorCondition::UnavailInServ
    );
}

#[test]
fn control_category_rejected() {
    for basic_type in all_basic_types() {
        let r = dbr_long(1).encode_value(
            DBRType {
                basic_type,
                category: DBRCategory::Control,
            },
            0,
        );
        assert_eq!(r.unwrap_err(), ErrorCondition::BadType);
    }
}

#[test]
fn graphics_enum_and_string_rejected() {
    for basic_type in [DBRBasicType::Enum, DBRBasicType::String] {
        let r = dbr_enum(1).encode_value(
            DBRType {
                basic_type,
                category: DBRCategory::Graphics,
            },
            0,
        );
        assert_eq!(r.unwrap_err(), ErrorCondition::BadType);
    }
    // Graphics still works for a numeric basic type.
    let (count, bytes) = dbr_long(7)
        .encode_value(
            DBRType {
                basic_type: DBRBasicType::Long,
                category: DBRCategory::Graphics,
            },
            0,
        )
        .unwrap();
    assert_eq!(count, 1);
    // status + severity + value, padded to eight bytes.
    assert_eq!(bytes, vec![0, 0, 0, 0, 0, 0, 0, 7]);
}

#[test]
fn element_limit_encoding() {
    // Requesting zero elements yields no bytes, for a scalar as for a group.
    let s = SingleOrVec::Single(7i32);
    assert_eq!(s.as_bytes(Some(0)), Vec::<u8>::new());
    assert_eq!(s.as_bytes(Some(1)), vec![0, 0, 0, 7]);
    assert_eq!(s.as_bytes(None), vec![0, 0, 0, 7]);
    let (count, bytes) = DbrValue::Long(SingleOrVec::Single(7i32)).encode_value(Some(0));
    assert_eq!(count, 0);
    assert_eq!(bytes, Vec::<u8>::new());

    let v = SingleOrVec::Vector(vec![1i32, 2, 3]);
    assert_eq!(v.as_bytes(Some(0)), Vec::<u8>::new());
    assert_eq!(
        v.as_bytes(None),
        vec![0, 0, 0, 1, 0, 0, 0, 2, 0, 0, 0, 3]
    );
    assert_eq!(v.as_bytes(Some(2)), vec![0, 0, 0, 1, 0, 0, 0, 2]);
    // A limit beyond the length yields only what is available.
    assert_eq!(v.as_bytes(Some(9)).len(), 12);

    let dbr = Dbr::Long(NumericDBR {
        value: SingleOrVec::Vector(vec![1i32, 2, 3]),
        ..Default::default()
    });
    let (count, bytes) = dbr
        .encode_value(
            DBRType {
                basic_type: DBRBasicType::Long,
                category: DBRCategory::Basic,
            },
            2,
        )
        .unwrap();
    assert_eq!(count, 2);
    assert_eq!(bytes, vec![0, 0, 0, 1, 0, 0, 0, 2]);
    // A requested count of zero means the native count.
    let (count, bytes) = dbr
        .encode_value(
            DBRType {
                basic_type: DBRBasicType::Long,
                category: DBRCategory::Basic,
            },
            0,
        )
        .unwrap();
    assert_eq!(count, 3);
    assert_eq!(bytes.len(), 16);
    assert_eq!(&bytes[..12], &[0, 0, 0, 1, 0, 0, 0, 2, 0, 0, 0, 3]);
    assert_eq!(&bytes[12..], &[0, 0, 0, 0]);
}

#[test]
fn status_severity_and_padding_layout() {
    let dbr = Dbr::Char(NumericDBR {
        status: 3,
        severity: 2,
        value: SingleOrVec::Single(-1i8),
        ..Default::default()
    });
    let (count, bytes) = dbr
        .encode_value(
            DBRType {
                basic_type: DBRBasicType::Char,
                category: DBRCategory::Status,
            },
            0,
        )
        .unwrap();
    assert_eq!(count, 1);
    // status(2) + severity(2) + one padding byte + value(1) -> 6, padded to 8.
    assert_eq!(bytes, vec![0, 3, 0, 2, 0, 0xff, 0, 0]);
}

#[test]
fn enum_value_encoding() {
    let (count, bytes) = dbr_enum(0x0102)
        .encode_value(
            DBRType {
                basic_type: DBRBasicType::Enum,
                category: DBRCategory::Basic,
            },
            0,
        )
        .unwrap();
    assert_eq!(count, 1);
    assert_eq!(bytes, vec![0x01, 0x02, 0, 0, 0, 0, 0, 0]);

    // Time category: status+severity, seconds, nanoseconds, two padding
    // bytes, then the index.
    let e = Dbr::Enum(EnumDBR {
        status: 0,
        severity: 0,
        strings: vec![],
        value: 7,
        last_updated: Timestamp {
            secs: 631152000,
            nanos: 0x0a0b0c0d,
        },
    });
    let (count, bytes) = e
        .encode_value(
            DBRType {
                basic_type: DBRBasicType::Enum,
                category: DBRCategory::Time,
            },
            0,
        )
        .unwrap();
    assert_eq!(count, 1);
    assert_eq!(
        bytes,
        vec![0, 0, 0, 0, 0, 0, 0, 0, 0x0a, 0x0b, 0x0c, 0x0d, 0, 0, 0, 7]
    );
}

#[test]
fn accessors_report_native_shape() {
    let dbr = Dbr::Long(NumericDBR {
        status: 1,
        severity: 2,
        value: SingleOrVec::Vector(vec![4i32, 5]),
        last_updated: Timestamp { secs: 10, nanos: 20 },
        ..Default::default()
    });
    assert_eq!(dbr.get_count(), 2);
    let t = dbr.get_native_type();
    assert_eq!(t.basic_type, DBRBasicType::Long);
    assert_eq!(t.category, DBRCategory::Basic);
    assert_eq!(dbr_string("x").get_count(), 1);
    assert_eq!(dbr_enum(0).get_count(), 1);
    assert_eq!(dbr_enum(0).get_native_type().basic_type, DBRBasicType::Enum);
    match dbr.get_value() {
        DbrValue::Long(SingleOrVec::Vector(v)) => assert_eq!(v, vec![4, 5]),
        _ => panic!("wrong value projection"),
    }
    match dbr_enum(9).get_value() {
        DbrValue::Enum(x) => assert_eq!(x, 9),
        _ => panic!("wrong value projection"),
    }
}

#[test]
fn value_only_enum_encoding_ignores_limit() {
    // The value-only enumerated encoding always emits the 2-byte index; the
    // limit only clips the reported count.
    let (count, bytes) = DbrValue::Enum(5).encode_value(Some(0));
    assert_eq!(count, 0);
    assert_eq!(bytes, vec![0, 5]);
    let (count, bytes) = DbrValue::Enum(5).encode_value(None);
    assert_eq!(count, 1);
    assert_eq!(bytes, vec![0, 5]);
}

#[test]
fn padding_for_status_double() {
    let (count, bytes) = dbr_double(1.0)
        .encode_value(
            DBRType {
                basic_type: DBRBasicType::Double,
                category: DBRCategory::Status,
            },
            0,
        )
        .unwrap();
    assert_eq!(count, 1);
    // status(2) + severity(2) + four padding bytes + value(8) -> 16.
    let mut expected = vec![0u8; 8];
    expected.extend_from_slice(&1.0f64.to_be_bytes());
    assert_eq!(bytes, expected);
}

#[test]
fn default_record_is_empty() {
    let d: NumericDBR<i32> = Default::default();
    assert_eq!(d.status, 0);
    assert_eq!(d.severity, 0);
    assert_eq!(d.precision, None);
    assert_eq!(d.units, "");
    assert_eq!(d.limits.display_limits.upper, None);
    assert_eq!(d.limits.warning_limits.upper, None);
    assert_eq!(d.limits.alarm_limits.lower, None);
    match d.value {
        SingleOrVec::Single(x) => assert_eq!(x, 0),
        _ => panic!("default value is not a scalar"),
    }
    assert_eq!(d.last_updated, Timestamp { secs: 0, nanos: 0 });
    let f: NumericDBR<F32> = Default::default();
    match f.value {
        SingleOrVec::Single(v) => assert_eq!(v.bits, 0.0f32.to_bits()),
        _ => panic!("default value is not a scalar"),
    }
}

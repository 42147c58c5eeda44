use cli_flags::flag::{Flag, FlagValue};

#[test]
fn test_flag_creation() {
    let flag = Flag {
        name: "test",
        args: &["-t", "--test"],
        desc: "A test flag",
        notes: Some("Optional notes"),
        value: Some(FlagValue::Int(42)),
    };

    assert_eq!(flag.name, "test");
    assert_eq!(flag.args, &["-t", "--test"]);
    assert_eq!(flag.desc, "A test flag");
    assert_eq!(flag.notes, Some("Optional notes"));

    if let Some(value) = flag.value.as_ref() {
        if let FlagValue::Int(v) = value {
            assert_eq!(*v, 42);
        } else {
            panic!("Flag value type mismatch!");
        }
    } else {
        panic!("Flag value is missing!");
    }
}

#[test]
fn test_flag_without_value() {
    let flag = Flag {
        name: "help",
        args: &["-h", "--help"],
        desc: "Display help information",
        notes: None,
        value: None,
    };

    assert_eq!(flag.name, "help");
    assert_eq!(flag.args, &["-h", "--help"]);
    assert_eq!(flag.desc, "Display help information");
    assert!(flag.notes.is_none());
    assert!(flag.value.is_none());
}

#[test]
fn test_flag_debug_format() {
    let flag = Flag {
        name: "output",
        args: &["-o", "--output"],
        desc: "Specify the output file",
        notes: None,
        value: Some(FlagValue::Text("output.txt".to_string())),
    };

    let debug_output = flag.render();

    assert!(debug_output.contains("output"));
    assert!(debug_output.contains("-o"));
    assert!(debug_output.contains("--output"));
    assert!(debug_output.contains("Specify the output file"));
    assert!(debug_output.contains("Default: `output.txt`"));
}

#[test]
fn test_flag_with_bool_value() {
    let flag = Flag {
        name: "verbose",
        args: &["-v", "--verbose"],
        desc: "Enable verbose output",
        notes: Some("Useful for debugging"),
        value: Some(FlagValue::Bool(true)),
    };

    if let Some(value) = flag.value.as_ref() {
        if let FlagValue::Bool(v) = value {
            assert_eq!(*v, true);
        } else {
            panic!("Flag value type mismatch!");
        }
    } else {
        panic!("Flag value is missing!");
    }
}

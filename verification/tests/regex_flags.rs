use polodb_python::regex_flags::{regex_flags, regex_options, option_letter_flag, RegexFlagValues};

// The values of Python's re.IGNORECASE, re.MULTILINE, re.DOTALL, re.VERBOSE.
fn python_values() -> RegexFlagValues {
    RegexFlagValues { ignorecase: 2, multiline: 8, dotall: 16, verbose: 64 }
}

#[test]
fn options_from_flags() {
    let v = python_values();
    assert_eq!(regex_options(0, &v), "");
    assert_eq!(regex_options(2, &v), "i");
    assert_eq!(regex_options(2 | 8 | 16 | 64, &v), "imsx");
    assert_eq!(regex_options(64 | 8, &v), "mx");
}

#[test]
fn unicode_flag_has_no_option() {
    // re.UNICODE (32) is set on every compiled str pattern; BSON has no letter for it.
    let v = python_values();
    assert_eq!(regex_options(32, &v), "");
    assert_eq!(regex_options(32 | 2, &v), "i");
}

#[test]
fn flags_from_options() {
    let v = python_values();
    assert_eq!(regex_flags("", &v), 0);
    assert_eq!(regex_flags("i", &v), 2);
    assert_eq!(regex_flags("xsmi", &v), 90);
    assert_eq!(regex_flags("ii", &v), 2);
}

#[test]
fn unknown_letters_are_ignored() {
    let v = python_values();
    assert_eq!(regex_flags("lu", &v), 0);
    assert_eq!(regex_flags("iu", &v), 2);
    assert_eq!(option_letter_flag('u', &v), 0);
    assert_eq!(option_letter_flag('s', &v), 16);
}

#[test]
fn python_regex_round_trip_keeps_known_flags() {
    let v = python_values();
    for flags in [0u32, 2, 32, 34, 90, 122, 255, 0xffff_ffff] {
        let options = regex_options(flags, &v);
        assert_eq!(regex_flags(&options, &v), flags & (2 | 8 | 16 | 64));
    }
}

#[test]
fn bson_regex_round_trip_keeps_canonical_options() {
    let v = python_values();
    for options in ["", "i", "m", "s", "x", "im", "ix", "msx", "imsx"] {
        assert_eq!(regex_options(regex_flags(options, &v), &v), options);
    }
}

use yowsl::commands::{
    default_uid_validator, flags_validator, parse_default_uid, parse_flags, parse_u64,
    require_registered, require_unregistered,
};
use yowsl::error::{DecodeFailure, Error};
use yowsl::flags::{APPEND_NT_PATH, ENABLE_DRIVE_MOUNTING, ENABLE_INTEROP};
use yowsl::library::{Export, NativeLibrary};
use yowsl::render::{join, push_binary, push_decimal, push_hex6, to_unsigned_bits};
use yowsl::{DistroConfiguration, DistroFlags};

fn flags(bits: u32) -> DistroFlags {
    DistroFlags::from_bits(bits).unwrap()
}

fn decimal(n: u32) -> String {
    let mut text = String::from(">");
    push_decimal(&mut text, n);
    text
}

fn binary(n: u32) -> String {
    let mut text = String::from(">");
    push_binary(&mut text, n);
    text
}

fn hex6(n: u32) -> String {
    let mut text = String::from(">");
    push_hex6(&mut text, n);
    text
}

#[test]
fn digits_in_decimal() {
    assert_eq!(decimal(0), ">0");
    assert_eq!(decimal(7), ">7");
    assert_eq!(decimal(1000), ">1000");
    assert_eq!(decimal(4294967295), ">4294967295");
}

#[test]
fn digits_in_binary_and_hexadecimal() {
    assert_eq!(binary(0), ">0");
    assert_eq!(binary(5), ">101");
    assert_eq!(binary(2), ">10");
    assert_eq!(hex6(0xBEEF), ">00BEEF");
    assert_eq!(hex6(0xFFFFFFFF), ">FFFFFFFF");
    assert_eq!(hex6(0x1A), ">00001A");
    assert_eq!(hex6(0), ">000000");
    assert_eq!(hex6(0x1234567), ">1234567");
}

#[test]
fn digits_agree_with_the_formatting_of_std() {
    for n in [0u32, 1, 9, 10, 99, 100, 65535, 65536, 0x7FFFFFFF, 0x80070002, u32::MAX] {
        assert_eq!(decimal(n), format!(">{}", n));
        assert_eq!(binary(n), format!(">{:b}", n));
        assert_eq!(hex6(n), format!(">{:06X}", n));
    }
}

#[test]
fn unsigned_bits_of_a_status() {
    assert_eq!(to_unsigned_bits(0), 0);
    assert_eq!(to_unsigned_bits(5), 5);
    assert_eq!(to_unsigned_bits(i32::MAX), 0x7FFFFFFF);
    assert_eq!(to_unsigned_bits(-1), 0xFFFFFFFF);
    assert_eq!(to_unsigned_bits(i32::MIN), 0x80000000);
    assert_eq!(to_unsigned_bits(-2147024894), 0x80070002);
}

#[test]
fn join_puts_the_separator_between_neighbours() {
    assert_eq!(join(&vec![], ", "), "");
    assert_eq!(join(&vec!["a".to_string()], ", "), "a");
    assert_eq!(join(&vec!["a".to_string(), "b".to_string(), "c".to_string()], " | "), "a | b | c");
    assert_eq!(join(&vec!["".to_string(), "".to_string()], "-"), "-");
}

#[test]
fn flags_pack_into_the_three_lowest_bits() {
    assert_eq!(ENABLE_INTEROP, 1);
    assert_eq!(APPEND_NT_PATH, 2);
    assert_eq!(ENABLE_DRIVE_MOUNTING, 4);
    assert_eq!(DistroFlags::empty().bits(), 0);
    assert_eq!(DistroFlags::all().bits(), 7);
    assert_eq!(DistroFlags::default(), DistroFlags::empty());
    let some = DistroFlags { interop: true, append_nt_path: false, drive_mounting: true };
    assert_eq!(some.bits(), 5);
    assert_eq!(
        (DistroFlags { interop: false, append_nt_path: true, drive_mounting: false }).bits(),
        2
    );
}

#[test]
fn flags_come_back_from_their_bits() {
    for bits in 0..8u32 {
        let decoded = DistroFlags::from_bits(bits).unwrap();
        assert_eq!(decoded.bits(), bits);
        assert_eq!(decoded.interop, bits & 1 != 0);
        assert_eq!(decoded.append_nt_path, bits & 2 != 0);
        assert_eq!(decoded.drive_mounting, bits & 4 != 0);
    }
}

#[test]
fn flags_with_an_unknown_bit_are_refused() {
    assert_eq!(DistroFlags::from_bits(8), None);
    assert_eq!(DistroFlags::from_bits(9), None);
    assert_eq!(DistroFlags::from_bits(0x80000001), None);
    assert_eq!(DistroFlags::from_bits(u32::MAX), None);
}

#[test]
fn flags_contain_and_are_empty() {
    assert!(DistroFlags::empty().is_empty());
    assert!(!flags(4).is_empty());
    assert!(flags(5).contains(flags(1)));
    assert!(flags(5).contains(flags(4)));
    assert!(flags(5).contains(flags(5)));
    assert!(flags(5).contains(flags(0)));
    assert!(!flags(5).contains(flags(2)));
    assert!(!flags(1).contains(flags(5)));
    assert!(DistroFlags::all().contains(flags(6)));
}

#[test]
fn flags_in_words() {
    assert_eq!(flags(0).to_string(), "NONE (0)");
    assert_eq!(flags(1).to_string(), "ENABLE_INTEROP (1)");
    assert_eq!(flags(2).to_string(), "APPEND_NT_PATH (2)");
    assert_eq!(flags(4).to_string(), "ENABLE_DRIVE_MOUNTING (4)");
    assert_eq!(flags(5).to_string(), "ENABLE_INTEROP (1) | ENABLE_DRIVE_MOUNTING (4)");
    assert_eq!(
        flags(7).to_string(),
        "ENABLE_INTEROP (1) | APPEND_NT_PATH (2) | ENABLE_DRIVE_MOUNTING (4)"
    );
}

#[test]
fn configuration_as_text() {
    let configuration = DistroConfiguration {
        name: "Ubuntu".to_string(),
        version: 2,
        default_uid: 1000,
        flags: flags(5),
        default_environment_variables: vec![
            "HOSTTYPE=x86_64".to_string(),
            "LANG=en_US.UTF-8".to_string(),
        ],
    };
    assert_eq!(
        configuration.to_toml(),
        "[Ubuntu]\n\
         version = 2\n\
         default_uid = 1000\n\
         # flags: 0b101\n\
         # ENABLE_INTEROP (1) | ENABLE_DRIVE_MOUNTING (4)\n\
         distro_flags = 0b101\n\
         default_environment_values = [\"HOSTTYPE=x86_64\", \"LANG=en_US.UTF-8\"]"
    );
}

#[test]
fn configuration_as_text_without_flags_and_environment() {
    let configuration = DistroConfiguration {
        name: "a b".to_string(),
        version: 0,
        default_uid: 4294967295,
        flags: DistroFlags::empty(),
        default_environment_variables: vec![],
    };
    assert_eq!(
        configuration.to_toml(),
        "[a b]\nversion = 0\ndefault_uid = 4294967295\n# flags: 0b0\n# NONE (0)\n\
         distro_flags = 0b0\n\
         default_environment_values = []"
    );
}

#[test]
fn configuration_as_text_with_one_variable() {
    let configuration = DistroConfiguration {
        name: String::new(),
        version: 1,
        default_uid: 0,
        flags: flags(2),
        default_environment_variables: vec!["PATH=/usr/bin:/bin".to_string()],
    };
    assert_eq!(
        configuration.to_toml(),
        "[]\nversion = 1\ndefault_uid = 0\n# flags: 0b10\n# APPEND_NT_PATH (2)\n\
         distro_flags = 0b10\n\
         default_environment_values = [\"PATH=/usr/bin:/bin\"]"
    );
}

#[test]
fn native_status_in_words() {
    let not_found = Error::NativeStatusError { code: 0x80070002u32 as i32 };
    assert_eq!(not_found.to_string(), "HRESULT == 0x80070002");
    assert_eq!(Error::NativeStatusError { code: 5 }.to_string(), "HRESULT == 0x000005");
    assert_eq!(Error::NativeStatusError { code: -1 }.to_string(), "HRESULT == 0xFFFFFFFF");
    assert_eq!(Error::NativeStatusError { code: 0x1234567 }.to_string(), "HRESULT == 0x1234567");
    for code in [1, 255, 0x80004005u32 as i32, i32::MIN, i32::MAX] {
        assert_eq!(
            Error::NativeStatusError { code }.to_string(),
            format!("HRESULT == {:#08X}", code)
        );
    }
}

#[test]
fn other_errors_in_words() {
    let load = Error::LoadError { library: NativeLibrary::Ole32, reason: "not found".to_string() };
    assert_eq!(load.to_string(), "Wslapi::new not found");
    let symbol = Error::SymbolError {
        export: Export::WslRegisterDistribution,
        reason: "no such procedure".to_string(),
    };
    assert_eq!(symbol.to_string(), "Wslapi::register_distro no such procedure");
    let free = Error::SymbolError { export: Export::CoTaskMemFree, reason: "gone".to_string() };
    assert_eq!(free.to_string(), "Wslapi::get_distro_configuration gone");
    assert_eq!(Error::DecodeError(DecodeFailure::Null).to_string(), "p is a null");
    assert_eq!(
        Error::DecodeError(DecodeFailure::Unterminated).to_string(),
        "p does not end with a null"
    );
    assert_eq!(Error::DecodeError(DecodeFailure::Malformed).to_string(), "p is not UTF-8");
    assert_eq!(
        Error::DecodeError(DecodeFailure::UnknownFlags).to_string(),
        "flags hold an unknown bit"
    );
    assert_eq!(
        Error::AlreadyRegistered { name: "Ubuntu".to_string() }.to_string(),
        "\"Ubuntu\" is an already registered WSL distro name"
    );
    assert_eq!(
        Error::NotRegistered { name: "Ubuntu".to_string() }.to_string(),
        "\"Ubuntu\" is not a registered WSL distro name"
    );
}

#[test]
fn libraries_and_exports_by_name() {
    assert_eq!(NativeLibrary::Ole32.name(), "ole32");
    assert_eq!(NativeLibrary::Wslapi.name(), "wslapi");
    assert_eq!(Export::CoTaskMemFree.name(), "CoTaskMemFree");
    assert_eq!(Export::CoTaskMemFree.library(), NativeLibrary::Ole32);
    let of_wslapi = [
        (Export::WslRegisterDistribution, "WslRegisterDistribution", "register_distro"),
        (Export::WslUnregisterDistribution, "WslUnregisterDistribution", "unregister_distro"),
        (
            Export::WslGetDistributionConfiguration,
            "WslGetDistributionConfiguration",
            "get_distro_configuration",
        ),
        (Export::WslConfigureDistribution, "WslConfigureDistribution", "configure_distro"),
        (Export::WslLaunchInteractive, "WslLaunchInteractive", "launch"),
        (
            Export::WslIsDistributionRegistered,
            "WslIsDistributionRegistered",
            "is_distribution_registered",
        ),
    ];
    for (export, name, operation) in of_wslapi {
        assert_eq!(export.name(), name);
        assert_eq!(export.operation(), operation);
        assert_eq!(export.library(), NativeLibrary::Wslapi);
    }
}

#[test]
fn numbers_are_parsed_as_std_parses_them() {
    let samples = [
        "0", "7", "1000", "007", "+5", "+", "", "-1", "++1", "1+", " 1", "1 ", "1_000", "12a",
        "18446744073709551615", "18446744073709551616", "99999999999999999999999", "+18446744073709551615",
        "٣", "4294967295", "4294967296",
    ];
    for text in samples {
        assert_eq!(parse_u64(text), text.parse::<u64>().ok());
        assert_eq!(parse_default_uid(text), text.parse::<u32>().ok());
    }
    assert_eq!(parse_u64("1000"), Some(1000));
    assert_eq!(parse_u64("18446744073709551615"), Some(u64::MAX));
    assert_eq!(parse_u64("18446744073709551616"), None);
    assert_eq!(parse_default_uid("4294967295"), Some(u32::MAX));
    assert_eq!(parse_default_uid("4294967296"), None);
}

#[test]
fn numbers_that_were_written_are_read_back() {
    for n in [0u32, 1, 9, 10, 1000, 65535, 4294967295] {
        assert_eq!(parse_u64(&decimal(n)[1..]), Some(n as u64));
        assert_eq!(parse_default_uid(&decimal(n)[1..]), Some(n));
    }
}

#[test]
fn default_uid_is_validated() {
    assert_eq!(default_uid_validator("1000".to_string()), Ok(()));
    assert_eq!(default_uid_validator("4294967296".to_string()), Ok(()));
    assert_eq!(
        default_uid_validator("root".to_string()),
        Err("A 64-bit unsigned integer is expected".to_string())
    );
    assert_eq!(
        default_uid_validator("".to_string()),
        Err("A 64-bit unsigned integer is expected".to_string())
    );
    assert_eq!(
        default_uid_validator("-1".to_string()),
        Err("A 64-bit unsigned integer is expected".to_string())
    );
}

#[test]
fn flags_argument_is_validated() {
    for text in ["000", "001", "010", "011", "100", "101", "110", "111"] {
        assert_eq!(flags_validator(text.to_string()), Ok(()));
    }
    for text in ["", "1", "11", "1111", "102", "abc", "0b1", "é1", " 01", "1 1"] {
        assert_eq!(
            flags_validator(text.to_string()),
            Err("3 binary digits are expected".to_string())
        );
        assert_eq!(parse_flags(text), None);
    }
}

#[test]
fn flags_argument_has_the_lowest_bit_last() {
    assert_eq!(
        parse_flags("101"),
        Some(DistroFlags { interop: true, append_nt_path: false, drive_mounting: true })
    );
    assert_eq!(
        parse_flags("001"),
        Some(DistroFlags { interop: true, append_nt_path: false, drive_mounting: false })
    );
    assert_eq!(
        parse_flags("110"),
        Some(DistroFlags { interop: false, append_nt_path: true, drive_mounting: true })
    );
    for text in ["000", "001", "010", "011", "100", "101", "110", "111"] {
        assert_eq!(parse_flags(text).unwrap().bits(), u32::from_str_radix(text, 2).unwrap());
    }
}

#[test]
fn checks_before_an_operation() {
    assert_eq!(require_registered("Ubuntu", true), Ok(()));
    assert_eq!(
        require_registered("Ubuntu", false),
        Err(Error::NotRegistered { name: "Ubuntu".to_string() })
    );
    assert_eq!(require_unregistered("Ubuntu", false), Ok(()));
    assert_eq!(
        require_unregistered("Ubuntu", true),
        Err(Error::AlreadyRegistered { name: "Ubuntu".to_string() })
    );
}

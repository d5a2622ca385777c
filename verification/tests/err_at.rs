use err_tools::opaque::AnyError;
use err_tools::traceable::{AtError, ErrType, Location};
use std::io;

#[test]
fn test_can_create_str_errs_with_err_att() {
    let here: u32 = 10;
    let r: Result<i32, AtError> = Err(AtError {
        loc: Location { file: "tests/err_at.rs", line: here },
        e_type: ErrType::S("hello"),
    });

    let e = r.err().unwrap();

    assert_eq!(here, e.loc.line);
    match e.e_type {
        ErrType::S(s) => assert_eq!("hello", s),
        ErrType::ST(_) => panic!("Expected 'str' not 'String'"),
        ErrType::Any(_) => panic!("Expected 'str' not 'ANY'"),
    }
}

#[test]
fn test_can_create_string_errs_with_err_at() {
    let here: u32 = 28;
    let r: Result<i32, AtError> = Err(AtError {
        loc: Location { file: "tests/err_at.rs", line: here },
        e_type: ErrType::ST(format!("hello {}", 24)),
    });

    let e = r.err().unwrap();

    assert_eq!(here, e.loc.line);
    match e.e_type {
        ErrType::S(_) => panic!("Expected 'String' not 'Str'"),
        ErrType::ST(s) => assert_eq!("hello 24", s),
        ErrType::Any(_) => panic!("Expected 'str' not 'ANY'"),
    }
}

#[test]
fn test_can_create_any_errs_with_err_at() {
    let here: u32 = 47;
    let io_err = io::Error::new(io::ErrorKind::FileTooLarge, "file too big");
    let r: Result<i32, AtError> = Err(AtError {
        loc: Location { file: "tests/err_at.rs", line: here },
        e_type: ErrType::Any(AnyError::new(io_err.into())),
    });

    let e = r.err().unwrap();

    assert_eq!(here, e.loc.line);
    match e.e_type {
        ErrType::S(_) => panic!("Expected 'String' not 'Str'"),
        ErrType::ST(_) => panic!("Expected 'str' not 'String'"),
        ErrType::Any(any) => assert_eq!("file too big", any.into_inner().to_string()),
    }
}

#[test]
fn test_can_map_err_to_location() {
    let err_line: u32 = 66;
    let res: Result<i32, AtError> =
        Err(io::Error::new(io::ErrorKind::FileTooLarge, "file too big")).map_err(|e| AtError {
            loc: Location { file: "tests/err_at.rs", line: err_line },
            e_type: ErrType::Any(AnyError::new(e.into())),
        });

    let e = res.err().unwrap();
    assert_eq!(err_line, e.loc.line);
    match e.e_type {
        ErrType::S(_) | ErrType::ST(_) => panic!("Expected 'Any Error', got string based"),
        ErrType::Any(any) => assert_eq!("file too big", any.into_inner().to_string()),
    }
}

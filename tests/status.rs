use oci_binding::types::{
    sword, ub4, IntoOCIError, OCIError, OCIHandleType, OCIMode, UNMAPPED_HANDLE_TYPE,
};

const KNOWN: [(sword, OCIError); 9] = [
    (0, OCIError::OCI_SUCCESS),
    (1, OCIError::OCI_SUCCESS_WITH_INFO),
    (100, OCIError::OCI_NO_DATA),
    (-1, OCIError::OCI_ERROR),
    (-2, OCIError::OCI_INVALID_HANDLE),
    (99, OCIError::OCI_NEED_DATA),
    (-3123, OCIError::OCI_STILL_EXECUTING),
    (-24200, OCIError::OCI_CONTINUE),
    (-24201, OCIError::OCI_ROWCBK_DONE),
];

#[test]
fn known_codes_classify_to_their_outcome() {
    for (code, outcome) in KNOWN.iter() {
        assert_eq!(code.into_oci_error(), *outcome);
    }
}

#[test]
fn known_outcomes_round_trip_through_their_code() {
    for (code, outcome) in KNOWN.iter() {
        let back: sword = (*outcome).into();
        assert_eq!(back, *code);
        assert_eq!(back.into_oci_error(), *outcome);
    }
}

#[test]
fn unknown_code_is_kept_in_the_unknown_outcome() {
    assert_eq!(42.into_oci_error(), OCIError::OCI_UNKNOWN(42));
    assert_eq!((-3).into_oci_error(), OCIError::OCI_UNKNOWN(-3));
    assert_eq!(sword::MAX.into_oci_error(), OCIError::OCI_UNKNOWN(sword::MAX));
    let back: sword = OCIError::OCI_UNKNOWN(42).into();
    assert_eq!(back, 42);
}

#[test]
fn handle_types_have_their_native_tags() {
    let tag = |t: OCIHandleType| -> ub4 { t.into() };
    assert_eq!(tag(OCIHandleType::OCI_HTYPE_ENV), 1);
    assert_eq!(tag(OCIHandleType::OCI_HTYPE_ERROR), 2);
    assert_eq!(tag(OCIHandleType::OCI_HTYPE_SVCCTX), 3);
    assert_eq!(tag(OCIHandleType::OCI_HTYPE_STMT), 4);
    assert_eq!(tag(OCIHandleType::OCI_HTYPE_BIND), 5);
    assert_eq!(tag(OCIHandleType::OCI_HTYPE_DEFINE), 6);
    assert_eq!(tag(OCIHandleType::OCI_HTYPE_DESCRIBE), 7);
    assert_eq!(tag(OCIHandleType::OCI_HTYPE_SERVER), 8);
    assert_eq!(tag(OCIHandleType::OCI_HTYPE_SESSION), 9);
    assert_eq!(tag(OCIHandleType::OCI_HTYPE_TRANS), 10);
    assert_eq!(tag(OCIHandleType::OCI_HTYPE_COMPLEXOBJECT), 11);
    assert_eq!(tag(OCIHandleType::OCI_HTYPE_SUBSCRIPTION), 13);
}

#[test]
fn unmapped_handle_types_get_the_sentinel() {
    let tag = |t: OCIHandleType| -> ub4 { t.into() };
    assert_eq!(UNMAPPED_HANDLE_TYPE, 1000);
    assert_eq!(tag(OCIHandleType::OCI_HTYPE_AUTHINFO), 1000);
    assert_eq!(tag(OCIHandleType::OCI_HTYPE_CPOOL), 1000);
    assert_eq!(tag(OCIHandleType::OCI_HTYPE_SPOOL), 1000);
    assert_eq!(tag(OCIHandleType::OCI_HTYPE_DIRPATH_CTX), 1000);
    assert_eq!(tag(OCIHandleType::OCI_HTYPE_DIRPATH_FN_CTX), 1000);
    assert_eq!(tag(OCIHandleType::OCI_HTYPE_DIRPATH_COLUMN_ARRAY), 1000);
    assert_eq!(tag(OCIHandleType::OCI_HTYPE_DIRPATH_STREAM), 1000);
    assert_eq!(tag(OCIHandleType::OCI_HTYPE_PROC), 1000);
    assert_eq!(tag(OCIHandleType::OCI_HTYPE_ADMIN), 1000);
}

#[test]
fn modes_are_distinct_bit_flags() {
    let all = [
        OCIMode::OCI_THREADED,
        OCIMode::OCI_OBJECT,
        OCIMode::OCI_EVENTS,
        OCIMode::OCI_NO_UCB,
        OCIMode::OCI_ENV_NO_MUTEX,
        OCIMode::OCI_NEW_LENGTH_SEMANTICS,
        OCIMode::OCI_SUPPRESS_NLS_VALIDATION,
        OCIMode::OCI_NCHAR_LITERAL_REPLACE_ON,
        OCIMode::OCI_NCHAR_LITERAL_REPLACE_OFF,
        OCIMode::OCI_ENABLE_NLS_VALIDATION,
    ];
    let default: ub4 = OCIMode::OCI_DEFAULT.into();
    assert_eq!(default, 0);
    let mut seen: ub4 = 0;
    for m in all.iter() {
        let bits: ub4 = (*m).into();
        assert_eq!(bits.count_ones(), 1);
        assert_eq!(seen & bits, 0);
        seen |= bits;
    }
    let threaded: ub4 = OCIMode::OCI_THREADED.into();
    let object: ub4 = OCIMode::OCI_OBJECT.into();
    let no_mutex: ub4 = OCIMode::OCI_ENV_NO_MUTEX.into();
    assert_eq!(threaded, 0x1);
    assert_eq!(object, 0x2);
    assert_eq!(no_mutex, 0x80);
    assert_eq!(threaded | object, 0x3);
}

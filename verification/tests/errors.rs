use pamsm::{PamError, PamResult};

const TABLE: [(PamError, i32); 33] = [
    (PamError::SUCCESS, 0),
    (PamError::OPEN_ERR, 1),
    (PamError::SYMBOL_ERR, 2),
    (PamError::SERVICE_ERR, 3),
    (PamError::SYSTEM_ERR, 4),
    (PamError::BUF_ERR, 5),
    (PamError::PERM_DENIED, 6),
    (PamError::AUTH_ERR, 7),
    (PamError::CRED_INSUFFICIENT, 8),
    (PamError::AUTHINFO_UNAVAIL, 9),
    (PamError::USER_UNKNOWN, 10),
    (PamError::MAXTRIES, 11),
    (PamError::NEW_AUTHTOK_REQD, 12),
    (PamError::ACCT_EXPIRED, 13),
    (PamError::SESSION_ERR, 14),
    (PamError::CRED_UNAVAIL, 15),
    (PamError::CRED_EXPIRED, 16),
    (PamError::CRED_ERR, 17),
    (PamError::NO_MODULE_DATA, 18),
    (PamError::CONV_ERR, 19),
    (PamError::AUTHTOK_ERR, 20),
    (PamError::AUTHTOK_RECOVERY_ERR, 21),
    (PamError::AUTHTOK_LOCK_BUSY, 22),
    (PamError::AUTHTOK_DISABLE_AGING, 23),
    (PamError::TRY_AGAIN, 24),
    (PamError::IGNORE, 25),
    (PamError::ABORT, 26),
    (PamError::AUTHTOK_EXPIRED, 27),
    (PamError::MODULE_UNKNOWN, 28),
    (PamError::BAD_ITEM, 29),
    (PamError::CONV_AGAIN, 30),
    (PamError::INCOMPLETE, 31),
    (PamError::UNKNOWN_RESULT, -1),
];

#[test]
fn every_result_has_its_documented_number() {
    for (e, n) in TABLE {
        assert_eq!(e.code(), n);
    }
}

#[test]
fn number_reads_back_as_the_same_result() {
    for (e, n) in TABLE {
        assert_eq!(PamError::new(n), e);
        assert_eq!(PamError::new(e.code()), e);
    }
}

#[test]
fn undocumented_numbers_read_as_unknown() {
    for n in [32, 33, 100, 255, 256, -2, -100, i32::MAX, i32::MIN] {
        assert_eq!(PamError::new(n), PamError::UNKNOWN_RESULT);
    }
    assert_eq!(PamError::UNKNOWN_RESULT.code(), -1);
}

#[test]
fn no_two_results_share_a_number() {
    for (i, (a, _)) in TABLE.iter().enumerate() {
        for (j, (b, _)) in TABLE.iter().enumerate() {
            assert_eq!(a.code() == b.code(), i == j);
        }
    }
}

#[test]
fn success_keeps_the_payload() {
    assert_eq!(PamError::SUCCESS.to_result(42), Ok(42));
    assert_eq!(PamError::new(0).to_result("payload"), Ok("payload"));
    let unit: PamResult<()> = PamError::SUCCESS.to_result(());
    assert_eq!(unit, Ok(()));
}

#[test]
fn every_other_result_is_its_own_error() {
    for (e, n) in TABLE {
        if n != 0 {
            assert_eq!(e.to_result(42), Err(e));
            assert_eq!(PamError::new(n).to_result("payload"), Err(e));
        }
    }
}

#[test]
fn unknown_result_is_an_error() {
    assert_eq!(PamError::new(1234).to_result(1u8), Err(PamError::UNKNOWN_RESULT));
}

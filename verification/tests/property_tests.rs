use sosecrets_rs::runtime::error::ExposeSecretError;
use sosecrets_rs::runtime::secret::{RTSecret, SecrecySecret};
use sosecrets_rs::runtime::secret_sync::RTSyncSecret;
use sosecrets_rs::runtime::traits::RTExposeSecret;
use sosecrets_rs::secret::Secret;
use sosecrets_rs::traits::ExposeSecret;

#[test]
fn test_scenario_bound_two() {
    let mut secret = RTSecret::<u64, u8, 2>::new(69);

    let first = secret
        .try_expose_secret(|exposed_secret| *exposed_secret.expose())
        .unwrap();
    assert_eq!(first, 69);
    let second = secret
        .try_expose_secret(|exposed_secret| *exposed_secret.expose())
        .unwrap();
    assert_eq!(second, 69);

    let third = secret.try_expose_secret(|exposed_secret| *exposed_secret.expose());
    match third {
        Ok(_) => panic!("third exposure must be rejected"),
        Err(ExposeSecretError::ExposeMoreThanMaximallyAllow(e)) => {
            assert_eq!(e.ec, 2u8);
            assert_eq!(e.mec, 2u8);
        }
        Err(_) => panic!("unexpected error variant"),
    }
    assert_eq!(secret.exposure_count(), 2u8);

    // Retrying after a recoverable overrun fails again deterministically:
    // the counter did not move.
    assert!(secret
        .try_expose_secret(|exposed_secret| *exposed_secret.expose())
        .is_err());
    assert_eq!(secret.exposure_count(), 2u8);
}

#[test]
fn test_scenario_bound_zero() {
    let mut secret = RTSecret::<String, u8, 0>::new("secret".to_owned());

    let attempt = secret.try_expose_secret(|exposed_secret| exposed_secret.expose().clone());
    match attempt {
        Ok(_) => panic!("a bound of zero must reject every exposure"),
        Err(ExposeSecretError::ExposeMoreThanMaximallyAllow(e)) => {
            assert_eq!(e.ec, 0u8);
            assert_eq!(e.mec, 0u8);
        }
        Err(_) => panic!("unexpected error variant"),
    }
    assert_eq!(secret.exposure_count(), 0u8);
}

#[test]
fn test_scenario_unchecked_escape_hatch() {
    let secret = SecrecySecret::<String>::new("secret".to_owned());

    for _ in 0..100 {
        let value = secret.expose_secret_unchecked(|exposed_secret| exposed_secret.expose().clone());
        assert_eq!(value, "secret");
    }
    let value = secret
        .try_expose_secret_unchecked(|exposed_secret| exposed_secret.expose().clone())
        .unwrap();
    assert_eq!(value, "secret");
}

#[test]
fn test_counter_monotonic() {
    let mut secret = RTSecret::<u64, u16, 300>::new(1);

    let mut last = 0u16;
    for _ in 0..300 {
        let c = secret.exposure_count();
        assert!(c >= last);
        let _ = secret.try_expose_secret(|_| ()).unwrap();
        assert_eq!(secret.exposure_count(), c + 1);
        last = secret.exposure_count();
    }
    // Exhausted: further attempts fail and leave the counter unchanged.
    assert!(secret.try_expose_secret(|_| ()).is_err());
    assert_eq!(secret.exposure_count(), 300u16);
}

#[test]
fn test_clone_preserves_budget_rt() {
    let mut source = RTSecret::<i32, u8, 2>::new(69);
    let _ = source.expose_secret(|g| *g.expose());
    assert_eq!(source.exposure_count(), 1u8);

    let mut duplicate = source.clone();
    assert_eq!(duplicate.exposure_count(), 1u8);

    // The duplicate has one exposure left; using it does not move the
    // source's counter.
    let v = duplicate.expose_secret(|g| *g.expose());
    assert_eq!(v, 69);
    assert_eq!(duplicate.exposure_count(), 2u8);
    assert_eq!(source.exposure_count(), 1u8);
    assert!(duplicate.try_expose_secret(|g| *g.expose()).is_err());

    // The source still has its own last exposure.
    let v = source.expose_secret(|g| *g.expose());
    assert_eq!(v, 69);
    assert_eq!(source.exposure_count(), 2u8);
}

#[test]
fn test_clone_preserves_budget_ct() {
    let secret = Secret::<i32, 2>::new(69);
    let (secret, _) = secret.expose_secret(|g| *g.expose());

    let cloned = secret.clone();
    let (cloned, v) = cloned.expose_secret(|g| *g.expose());
    assert_eq!(v, 69);
    // Both the source and the clone have consumed their own budget
    // independently; each can still be destroyed separately.
    let (_secret, v) = secret.expose_secret(|g| *g.expose());
    assert_eq!(v, 69);
    drop(cloned);
}

#[test]
fn test_zeroize_drop_u8() {
    let secret = Secret::<u8, 1>::new(69);
    assert_eq!(secret.zeroize_drop(), 0);
}

#[test]
fn test_zeroize_drop_u64() {
    let secret = Secret::<u64, 1>::new(69);
    assert_eq!(secret.zeroize_drop(), 0);
}

#[test]
fn test_zeroize_drop_usize() {
    let secret = Secret::<usize, 1>::new(69);
    assert_eq!(secret.zeroize_drop(), 0);
}

#[test]
fn test_zeroize_drop_i32() {
    let secret = Secret::<i32, 1>::new(-69);
    assert_eq!(secret.zeroize_drop(), 0);
}

#[test]
fn test_zeroize_drop_i64() {
    let secret = Secret::<i64, 1>::new(-69);
    assert_eq!(secret.zeroize_drop(), 0);
}

#[test]
fn test_zeroize_drop_isize() {
    let secret = Secret::<isize, 1>::new(-69);
    assert_eq!(secret.zeroize_drop(), 0);
}

#[test]
fn test_zeroize_drop_string() {
    let secret = Secret::<String, 1>::new("MySecret".to_owned());
    let shell = secret.zeroize_drop();
    assert!(shell.is_empty());
}

#[test]
fn test_zeroize_drop_vec_string() {
    let secret = Secret::<Vec<String>, 1>::new(vec!["MySecret".to_owned()]);
    let shell = secret.zeroize_drop();
    assert!(shell.is_empty());
}

#[test]
fn test_zeroize_drop_rt() {
    // Scrubbing happens at destruction, never before: both exposures still
    // see the payload, and only the destructor wipes it.
    let mut secret = RTSecret::<u64, u8, 2>::new(69);
    let v = secret.expose_secret(|g| *g.expose());
    assert_eq!(v, 69);
    let v = secret.expose_secret(|g| *g.expose());
    assert_eq!(v, 69);
    assert_eq!(secret.zeroize_drop(), 0);
}

#[test]
fn test_new_with_factories() {
    let secret = Secret::<String, 1>::new_with(|| "generated".to_owned());
    let (_s, v) = secret.expose_secret(|g| g.expose().clone());
    assert_eq!(v, "generated");

    let mut secret = RTSecret::<u64, u8, 1>::new_with(|| 42);
    let v = secret.expose_secret(|g| *g.expose());
    assert_eq!(v, 42);
}

#[test]
fn test_rt_sync_secret_counts() {
    let secret = RTSyncSecret::<u64, 3>::new(7);
    assert_eq!(secret.exposure_count(), 0);

    let other = RTSyncSecret::<String, 2>::new_with(|| "shared".to_owned());
    assert_eq!(other.exposure_count(), 0);
}

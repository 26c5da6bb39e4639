use sosecrets_rs::secret::{ExposedSecret, Secret};
use sosecrets_rs::traits::{DebugSecret, ExposeSecret};

#[derive(Debug)]
pub struct UseSecret<T> {
    pub inner: T,
}

impl<T> UseSecret<T> {
    pub fn new(value: T) -> Self {
        Self { inner: value }
    }
}

#[test]
fn test_expose_secret_extern() {
    let secret = "MySecret".to_owned();
    let new_secret: Secret<_, 5> = Secret::new(secret);
    let (_new_secret, returned_value) = new_secret.expose_secret(|exposed_secret| {
        let returned_value = UseSecret::new(exposed_secret.expose().to_owned());
        returned_value
    });
    assert_eq!(returned_value.inner, "MySecret".to_owned());
}

#[test]
fn extern_bin_test_secret_with_vec_and_clone() {
    let secret_vec = vec!["MySecret".to_string()];
    let new_secret: Secret<_, 2> = Secret::new(secret_vec);
    let (new_secret, returned_value) = new_secret.expose_secret(|exposed_secret| {
        let returned_value = UseSecret::new(exposed_secret.expose().to_owned());
        returned_value
    });
    assert_eq!(returned_value.inner, vec!["MySecret".to_owned()]);

    let cloned_secret = new_secret.clone();
    let (_cloned_secret, returned_value) = cloned_secret.expose_secret(|exposed_secret| {
        let returned_value = UseSecret::new(exposed_secret.expose().to_owned());
        returned_value
    });
    assert_eq!(returned_value.inner, vec!["MySecret".to_owned()]);
}

#[test]
fn extern_bin_test_expose_secret_with_wrapper() {
    #[derive(Clone, Debug, PartialEq)]
    struct SecretString(String);

    let secret = SecretString("MySecret".to_owned());
    let new_secret: Secret<_, 50> = Secret::new(secret);
    let (new_secret, returned_value) = new_secret.expose_secret(|exposed_secret| {
        let returned_value = UseSecret::new(exposed_secret.expose().to_owned());
        returned_value
    });
    assert_eq!(returned_value.inner, SecretString("MySecret".to_owned()));

    let (new_secret, returned_value) = new_secret.expose_secret(|exposed_secret| {
        let returned_value = UseSecret::new(exposed_secret.expose().to_owned());
        returned_value
    });
    assert_eq!(returned_value.inner, SecretString("MySecret".to_owned()));

    let (new_secret, returned_value) = new_secret.expose_secret(|exposed_secret| {
        let returned_value = UseSecret::new(exposed_secret.expose().to_owned());
        returned_value
    });
    assert_eq!(returned_value.inner, SecretString("MySecret".to_owned()));

    let (new_secret, returned_value) = new_secret.expose_secret(|exposed_secret| {
        let returned_value = UseSecret::new(exposed_secret.expose().to_owned());
        returned_value
    });
    assert_eq!(returned_value.inner, SecretString("MySecret".to_owned()));

    let (_new_secret, returned_value) = new_secret.expose_secret(|exposed_secret| {
        let returned_value = UseSecret::new(exposed_secret.expose().to_owned());
        returned_value
    });
    assert_eq!(returned_value.inner, SecretString("MySecret".to_owned()));
}

#[test]
fn test_expose_secret() {
    let new_secret: Secret<String, 2> = Secret::new("mySecret".to_owned());

    let (new_secret, returned_value) = new_secret.expose_secret(|exposed_secret| {
        let returned_value = UseSecret::new(exposed_secret.expose().clone());
        returned_value
    });
    assert_eq!("mySecret", &returned_value.inner);

    let (_new_secret, returned_value) = new_secret.expose_secret(|exposed_secret| {
        let returned_value = UseSecret::new(exposed_secret.expose().to_string());
        returned_value
    });
    assert_eq!("mySecret", &returned_value.inner);
}

#[test]
fn test_expose_secret_2() {
    let new_secret: Secret<_, 2> = Secret::new(69);

    let (new_secret, returned_value) = new_secret.expose_secret(|exposed_secret| {
        let returned_value = UseSecret::new(*exposed_secret.expose());
        returned_value
    });
    assert_eq!(69, returned_value.inner);

    let (_new_secret, returned_value) = new_secret.expose_secret(|exposed_secret| {
        let returned_value = UseSecret::new(*exposed_secret.expose());
        returned_value
    });
    assert_eq!(69, returned_value.inner);
}

#[test]
fn extern_bin_test_clone_1() {
    let new_secret: Secret<i32, 2> = Secret::new(69);

    let (new_secret, returned_value) = new_secret.expose_secret(|exposed_secret| {
        let returned_value = UseSecret::new(*exposed_secret.expose());
        returned_value
    });
    assert_eq!(69, returned_value.inner);

    let cloned_secret = new_secret.clone();
    let (_cloned_secret, returned_value) = cloned_secret.expose_secret(|exposed_secret| {
        let returned_value = UseSecret::new(*exposed_secret.expose());
        returned_value
    });
    assert_eq!(69, returned_value.inner);
}

#[test]
fn extern_bin_test_debug_secret_one() {
    #[derive(Debug, Clone)]
    struct A {
        _inner: i32,
    }

    impl DebugSecret for A {}

    let a = A { _inner: 69 };

    let new_secret: Secret<A, 5> = Secret::new(a.clone());
    assert_eq!(new_secret.debug_fmt().as_str(), "Secret<[REDACTED]>");
}

#[test]
fn extern_bin_test_bounds() {
    fn check_unpin<T: Unpin>() {}
    fn check_send_sync_val<T: Send + Sync>(_t: T) {}
    fn check_send_sync<T: Send + Sync>() {}
    check_unpin::<Secret<i32, 2>>();
    check_unpin::<ExposedSecret<'_, i32>>();

    let secret = Secret::<i32, 5>::new(69);
    check_send_sync_val(secret);
    let secret = Secret::<i32, 5>::new(69);
    check_send_sync_val(secret.expose_secret(|_| {}));

    check_send_sync::<Secret<i32, 2>>();
}

#[test]
fn test_static_ref_and_ref_can_leak_secret() {
    #[derive(Debug, Clone)]
    struct GlobalA {
        _inner: i32,
    }

    let a = GlobalA { _inner: 69 };

    let secret_one: Secret<&GlobalA, 2> = Secret::new(&a);

    let (_, exposed_secret) = secret_one.expose_secret(|exposed_secret| *exposed_secret.expose());

    assert_eq!(exposed_secret._inner, 69);
}

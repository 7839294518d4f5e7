use serq::failure::{Failure, FailureKind};
use serq::secrets::{get_api_key, has_api_key, set_api_key, StoreRead, KEY_NAME, SERVICE};

/// A secure store with one slot per service and name, kept in memory.
struct Vault {
    entries: Vec<(String, String, String)>,
}

impl Vault {
    fn new() -> Vault {
        Vault {
            entries: Vec::new(),
        }
    }

    fn write(&mut self, service: &str, name: &str, value: &str) -> Result<(), String> {
        self.entries.retain(|(s, n, _)| !(s == service && n == name));
        self.entries
            .push((service.to_string(), name.to_string(), value.to_string()));
        Ok(())
    }

    fn read(&self, service: &str, name: &str) -> StoreRead {
        for (s, n, value) in &self.entries {
            if s == service && n == name {
                return StoreRead::Value(value.clone());
            }
        }
        StoreRead::NoEntry
    }
}

fn set(vault: &mut Vault, key: &str) -> Result<(), Failure> {
    set_api_key(vault.write(SERVICE, KEY_NAME, key))
}

fn get(vault: &Vault) -> Result<Option<String>, Failure> {
    get_api_key(vault.read(SERVICE, KEY_NAME))
}

fn has(vault: &Vault) -> Result<bool, Failure> {
    has_api_key(vault.read(SERVICE, KEY_NAME))
}

#[test]
fn the_key_has_one_fixed_address() {
    assert_eq!(SERVICE, "com.serq.app");
    assert_eq!(KEY_NAME, "anthropic-api-key");
}

#[test]
fn a_fresh_store_has_no_key() {
    let vault = Vault::new();
    assert_eq!(get(&vault), Ok(None));
    assert_eq!(has(&vault), Ok(false));
}

#[test]
fn a_stored_key_is_read_back() {
    let mut vault = Vault::new();
    assert_eq!(set(&mut vault, "abc123"), Ok(()));
    assert_eq!(get(&vault), Ok(Some("abc123".to_string())));
    assert_eq!(has(&vault), Ok(true));
}

#[test]
fn an_empty_key_reads_as_none() {
    let mut vault = Vault::new();
    assert_eq!(set(&mut vault, ""), Ok(()));
    assert_eq!(get(&vault), Ok(None));
    assert_eq!(has(&vault), Ok(false));
}

#[test]
fn setting_the_empty_key_unsets_a_key() {
    let mut vault = Vault::new();
    assert_eq!(set(&mut vault, "abc123"), Ok(()));
    assert_eq!(set(&mut vault, ""), Ok(()));
    assert_eq!(get(&vault), Ok(None));
    assert_eq!(has(&vault), Ok(false));
    assert_eq!(set(&mut vault, "xyz"), Ok(()));
    assert_eq!(get(&vault), Ok(Some("xyz".to_string())));
}

#[test]
fn entries_under_other_names_are_not_the_key() {
    let mut vault = Vault::new();
    vault.write(SERVICE, "another-key", "abc123").unwrap();
    vault.write("another.service", KEY_NAME, "abc123").unwrap();
    assert_eq!(get(&vault), Ok(None));
    assert_eq!(has(&vault), Ok(false));
}

#[test]
fn a_key_is_kept_as_it_is() {
    for key in [" ", "\n", "sk-ant-ü-漢字", "  padded  ", "0"] {
        assert_eq!(
            get_api_key(StoreRead::Value(key.to_string())),
            Ok(Some(key.to_string()))
        );
        assert_eq!(has_api_key(StoreRead::Value(key.to_string())), Ok(true));
    }
}

#[test]
fn a_failed_write_is_a_store_failure() {
    assert_eq!(
        set_api_key(Err("keychain is locked".to_string())),
        Err(Failure {
            kind: FailureKind::Store,
            reason: "Failed to store API key: keychain is locked".to_string(),
        })
    );
    assert_eq!(set_api_key(Ok(())), Ok(()));
}

#[test]
fn a_failed_read_is_a_store_failure() {
    assert_eq!(
        get_api_key(StoreRead::Failed("keychain is locked".to_string())),
        Err(Failure {
            kind: FailureKind::Store,
            reason: "Failed to retrieve API key: keychain is locked".to_string(),
        })
    );
}

#[test]
fn a_failed_check_is_a_store_failure() {
    assert_eq!(
        has_api_key(StoreRead::Failed("keychain is locked".to_string())),
        Err(Failure {
            kind: FailureKind::Store,
            reason: "Failed to check API key: keychain is locked".to_string(),
        })
    );
}

#[test]
fn a_failure_with_an_empty_cause_is_still_a_failure() {
    assert_eq!(
        has_api_key(StoreRead::Failed(String::new())),
        Err(Failure {
            kind: FailureKind::Store,
            reason: "Failed to check API key: ".to_string(),
        })
    );
}

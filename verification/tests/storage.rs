use persistent::Storage;

#[test]
fn filesystem_display() {
    let path = "/tmp/some/dir/key-bindings.toml".to_string();
    let storage = Storage::Filesystem { path: path.clone() };
    assert_eq!(storage.to_string(), path);
}

#[test]
fn local_storage_display() {
    let storage = Storage::LocalStorage { key: "key-bindings.toml".to_owned() };
    assert_eq!(storage.to_string(), "/local/key-bindings.toml");
}

#[test]
fn session_storage_display() {
    let storage = Storage::SessionStorage { key: "key-bindings.toml".to_owned() };
    assert_eq!(storage.to_string(), "/session/key-bindings.toml");
}

#[test]
fn browser_paths_select_storages() {
    assert_eq!(
        Storage::from_browser_path("/local/settings/key-bindings.toml"),
        Some(Storage::LocalStorage { key: "settings/key-bindings.toml".to_owned() }),
    );
    assert_eq!(
        Storage::from_browser_path("/session/settings/key-bindings.toml"),
        Some(Storage::SessionStorage { key: "settings/key-bindings.toml".to_owned() }),
    );
    assert_eq!(
        Storage::from_browser_path("local/key-bindings.toml"),
        Some(Storage::LocalStorage { key: "key-bindings.toml".to_owned() }),
    );
    assert_eq!(
        Storage::from_browser_path("//local//state/game.bin/"),
        Some(Storage::LocalStorage { key: "state/game.bin".to_owned() }),
    );
    assert_eq!(
        Storage::from_browser_path("/session"),
        Some(Storage::SessionStorage { key: "".to_owned() }),
    );
}

#[test]
fn current_directory_components_around_the_key_are_skipped() {
    assert_eq!(
        Storage::from_browser_path("/local/./a"),
        Some(Storage::LocalStorage { key: "a".to_owned() }),
    );
    assert_eq!(
        Storage::from_browser_path("/./session/a/."),
        Some(Storage::SessionStorage { key: "a".to_owned() }),
    );
    assert_eq!(
        Storage::from_browser_path("/local/a/./b/"),
        Some(Storage::LocalStorage { key: "a/./b".to_owned() }),
    );
    assert_eq!(
        Storage::from_browser_path("/local/.."),
        Some(Storage::LocalStorage { key: "..".to_owned() }),
    );
    assert_eq!(
        Storage::from_browser_path("/local/.hidden"),
        Some(Storage::LocalStorage { key: ".hidden".to_owned() }),
    );
    assert_eq!(Storage::from_browser_path("./local/a"), None);
    assert_eq!(Storage::from_browser_path("/local./a"), None);
}

#[test]
fn other_paths_select_no_browser_storage() {
    assert_eq!(Storage::from_browser_path("/home/user/key-bindings.toml"), None);
    assert_eq!(Storage::from_browser_path("/localstorage/key-bindings.toml"), None);
    assert_eq!(Storage::from_browser_path("/loc"), None);
    assert_eq!(Storage::from_browser_path(""), None);
}

#[test]
fn shown_browser_storage_selects_itself() {
    for storage in [
        Storage::LocalStorage { key: "configuration/key-bindings.toml".to_owned() },
        Storage::SessionStorage { key: "saves/slot-1.bin".to_owned() },
        Storage::LocalStorage { key: "".to_owned() },
    ] {
        assert_eq!(Storage::from_browser_path(&storage.to_string()), Some(storage));
    }
}

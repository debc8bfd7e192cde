use smop::experimental::store::Store;

#[test]
fn store_reads_back_what_was_written() {
    let mut store: Store<i32> = Store::new();
    assert!(store.keys().is_empty());
    store.set("number".to_string(), 42);
    store.set("other".to_string(), 1);
    assert_eq!(store.get("number"), Some(&42));
    store.set("number".to_string(), 7);
    assert_eq!(store.get("number"), Some(&7));
    assert_eq!(store.get("other"), Some(&1));
    let mut keys = store.keys();
    keys.sort();
    assert_eq!(keys, vec!["number".to_string(), "other".to_string()]);
}

#[test]
fn store_remove_and_clear() {
    let mut store = Store::from_entries(vec![("key".to_string(), "value"), ("k2".to_string(), "v2"), ("key".to_string(), "last")]);
    assert_eq!(store.get("key"), Some(&"last"));
    assert_eq!(store.keys().len(), 2);
    store.remove("key");
    assert_eq!(store.get("key"), None);
    assert_eq!(store.get("k2"), Some(&"v2"));
    store.remove("absent");
    store.clear();
    assert!(store.keys().is_empty());
    assert_eq!(store.get("k2"), None);
}

fn save(store: &Store<serde_json::Value>) -> String {
    let mut map = serde_json::Map::new();
    for key in store.keys() {
        let value = store.get(&key).unwrap().clone();
        map.insert(key, value);
    }
    serde_json::Value::Object(map).to_string()
}

fn open(saved: Option<&str>) -> Store<serde_json::Value> {
    match saved {
        None => Store::new(),
        Some(text) => {
            let value: serde_json::Value = serde_json::from_str(text).unwrap();
            let entries = value.as_object().unwrap().iter().map(|(k, v)| (k.clone(), v.clone())).collect();
            Store::from_entries(entries)
        }
    }
}

#[test]
fn open_creates_new_store() {
    let store = open(None);
    assert!(store.keys().is_empty());
}

#[test]
fn get_retrieves_data() {
    let saved = {
        let mut store = open(None);
        store.set("number".to_string(), serde_json::to_value(42).unwrap());
        save(&store)
    };
    let store = open(Some(&saved));
    let val: i32 = serde_json::from_value(store.get("number").unwrap().clone()).unwrap();
    assert_eq!(val, 42);
}

#[test]
fn remove_deletes_data() {
    let saved = {
        let mut store = open(None);
        store.set("key".to_string(), serde_json::Value::String("value".to_string()));
        store.remove("key");
        save(&store)
    };
    let store = open(Some(&saved));
    let val: Option<String> = store.get("key").map(|v| serde_json::from_value(v.clone()).unwrap());
    assert!(val.is_none());
}

#[test]
fn entries_rebuild_the_same_store() {
    let mut store: Store<i32> = Store::new();
    store.set("a".to_string(), 1);
    store.set("b".to_string(), 2);
    store.set("a".to_string(), 3);
    store.remove("b");
    let reopened = Store::from_entries(store.entries().clone());
    assert_eq!(reopened.get("a"), Some(&3));
    assert_eq!(reopened.get("b"), None);
    assert_eq!(reopened.keys(), vec!["a".to_string()]);
}

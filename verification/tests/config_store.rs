use std::cell::RefCell;
use std::rc::Rc;

use significant_clock::codec::{decode_config, encode_config};
use significant_clock::config::{Config, Handler, MemStorage as LibMemStorage, Storage};
use significant_clock::pixel::Pixel;

/// An in-memory document store sharing its contents across handles, so a
/// test can drop one handler and load a fresh one from the same storage,
/// as a process restart would.
#[derive(Clone, Default)]
struct MemStorage {
    data: Rc<RefCell<Option<Vec<u8>>>>,
    fail_writes: Rc<RefCell<bool>>,
}

impl Storage for MemStorage {
    // The ghost model of the contents is erased at run time and never read.
    fn contents(&self) -> Option<vstd::seq::Seq<u8>> {
        None
    }

    fn read(&mut self) -> Option<Vec<u8>> {
        self.data.borrow().clone()
    }

    fn write(&mut self, bytes: &[u8]) -> bool {
        if *self.fail_writes.borrow() {
            return false;
        }
        *self.data.borrow_mut() = Some(bytes.to_vec());
        true
    }
}

fn sample_config() -> Config {
    Config { lamp_on: false, lamp_brightness: Pixel { r: 0, g: 128, b: 255 }, significant_mode: true }
}

#[test]
fn encoding_is_the_canonical_json_document() {
    let config = Config {
        lamp_on: true,
        lamp_brightness: Pixel { r: 25, g: 25, b: 25 },
        significant_mode: false,
    };
    let bytes = encode_config(&config);
    assert_eq!(
        String::from_utf8(bytes).unwrap(),
        "{\"lamp_on\":true,\"lamp_brightness\":{\"r\":25,\"g\":25,\"b\":25},\"significant_mode\":false}"
    );
}

#[test]
fn channel_values_use_plain_decimal_digits() {
    let config = Config {
        lamp_on: false,
        lamp_brightness: Pixel { r: 0, g: 5, b: 255 },
        significant_mode: true,
    };
    let bytes = encode_config(&config);
    assert_eq!(
        String::from_utf8(bytes).unwrap(),
        "{\"lamp_on\":false,\"lamp_brightness\":{\"r\":0,\"g\":5,\"b\":255},\"significant_mode\":true}"
    );
}

#[test]
fn decoding_inverts_encoding() {
    let samples = [
        Config::default(),
        sample_config(),
        Config { lamp_on: true, lamp_brightness: Pixel { r: 9, g: 99, b: 199 }, significant_mode: true },
        Config { lamp_on: false, lamp_brightness: Pixel { r: 255, g: 0, b: 10 }, significant_mode: false },
    ];
    for config in samples {
        let bytes = encode_config(&config);
        assert_eq!(decode_config(&bytes), Some(config));
    }
}

#[test]
fn decoding_rejects_anything_else() {
    assert_eq!(decode_config(b""), None);
    assert_eq!(decode_config(b"{}"), None);
    assert_eq!(decode_config(b"{\"lamp_on\":true"), None);
    // Wrong field order is not canonical.
    assert_eq!(
        decode_config(
            b"{\"significant_mode\":false,\"lamp_on\":true,\"lamp_brightness\":{\"r\":25,\"g\":25,\"b\":25}}"
        ),
        None
    );
    // Leading zeros, out-of-range channels and trailing bytes are rejected.
    assert_eq!(
        decode_config(
            b"{\"lamp_on\":true,\"lamp_brightness\":{\"r\":025,\"g\":25,\"b\":25},\"significant_mode\":false}"
        ),
        None
    );
    assert_eq!(
        decode_config(
            b"{\"lamp_on\":true,\"lamp_brightness\":{\"r\":256,\"g\":25,\"b\":25},\"significant_mode\":false}"
        ),
        None
    );
    assert_eq!(
        decode_config(
            b"{\"lamp_on\":true,\"lamp_brightness\":{\"r\":25,\"g\":25,\"b\":25},\"significant_mode\":false} "
        ),
        None
    );
}

#[test]
fn set_then_load_round_trips_across_a_restart() {
    let storage = MemStorage::default();
    let config = sample_config();
    {
        let mut handler: Handler<Config, MemStorage> = Handler::new(storage.clone());
        assert!(handler.set(config));
        assert_eq!(handler.get(), config);
    }
    // A fresh handler over the same durable storage: the restart.
    let handler: Handler<Config, MemStorage> = Handler::new(storage);
    assert_eq!(handler.get(), config);
}

#[test]
fn missing_document_falls_back_to_the_default() {
    let handler: Handler<Config, MemStorage> = Handler::new(MemStorage::default());
    assert_eq!(handler.get(), Config::default());
}

#[test]
fn corrupt_document_falls_back_to_the_default() {
    let storage = MemStorage::default();
    *storage.data.borrow_mut() = Some(b"{not json at all".to_vec());
    let handler: Handler<Config, MemStorage> = Handler::new(storage);
    assert_eq!(handler.get(), Config::default());
}

#[test]
fn failed_write_keeps_the_new_value_in_memory() {
    let storage = MemStorage::default();
    let mut handler: Handler<Config, MemStorage> = Handler::new(storage.clone());
    *storage.fail_writes.borrow_mut() = true;
    let config = sample_config();
    assert!(!handler.set(config));
    // In memory the value moved on; storage silently lags.
    assert_eq!(handler.get(), config);
    assert_eq!(*storage.data.borrow(), None);
}

#[test]
fn library_mem_storage_holds_one_document() {
    let mut store = LibMemStorage::empty();
    assert_eq!(store.read(), None);
    assert_eq!(store.document(), None);
    assert!(store.write(b"abc"));
    assert_eq!(store.read(), Some(b"abc".to_vec()));
    assert_eq!(store.document(), Some(b"abc".to_vec()));
}

#[test]
fn handler_loads_from_a_seeded_library_store() {
    let config = sample_config();
    let seeded = LibMemStorage::with_document(Some(encode_config(&config)));
    let handler: Handler<Config, LibMemStorage> = Handler::new(seeded);
    assert_eq!(handler.get(), config);
}

#[test]
fn default_config_matches_the_device_fallback() {
    let config = Config::default();
    assert!(config.lamp_on);
    assert!(!config.significant_mode);
    assert_eq!(config.lamp_brightness, Pixel { r: 25, g: 25, b: 25 });
}

//! The persisted device configuration and its store.
//!
//! A [`Config`] is persisted as one whole-document snapshot and never
//! partially updated on disk.  The [`Handler`] keeps the current value in
//! memory, writes it through a [`Storage`] port on every accepted change,
//! and falls back to the default when nothing stored can be recovered.

use crate::codec;
use crate::pixel::Pixel;
use vstd::prelude::*;

verus! {

/// The global clock configuration.  Persisted on every change; any task may
/// replace it by publishing a `ChangeConfig` event.
#[derive(Clone, Copy, Debug, PartialEq, Eq, Structural)]
pub struct Config {
    pub lamp_on: bool,
    pub lamp_brightness: Pixel,
    pub significant_mode: bool,
}

impl Config {
    /// The fixed fallback: lamp on at a dim warm-up brightness, significant
    /// readings not flagged.
    pub open spec fn spec_default() -> Config {
        Config { lamp_on: true, lamp_brightness: Pixel { r: 25, g: 25, b: 25 }, significant_mode: false }
    }
}

impl Default for Config {
    fn default() -> (result: Config)
        ensures
            result == Config::spec_default(),
    {
        Config {
            lamp_on: true,
            lamp_brightness: Pixel { r: 25, g: 25, b: 25 },
            significant_mode: false,
        }
    }
}

/// Volatile device state, not persisted with the configuration.
#[derive(Clone, Copy, Debug, PartialEq, Eq, Structural)]
pub struct State {
    lamp_on: bool,
    alarm_on: bool,
}

impl State {
    pub closed spec fn spec_lamp_on(self) -> bool {
        self.lamp_on
    }

    pub closed spec fn spec_alarm_on(self) -> bool {
        self.alarm_on
    }
}

impl Default for State {
    fn default() -> (result: State)
        ensures
            result.spec_lamp_on(),
            !result.spec_alarm_on(),
    {
        State { lamp_on: true, alarm_on: false }
    }
}

/// A value that can be stored and recovered as one byte document.
///
/// `decoded` is the value a stored document denotes, if any; an
/// implementation must recover every document its own encoder produces
/// (see [`Persist::round_trip`]).
pub trait Persist: Sized + Copy {
    /// The canonical byte document of this value.
    spec fn encoding(self) -> Seq<u8>;

    /// The value a byte document denotes, if any.
    spec fn decoded(bytes: Seq<u8>) -> Option<Self>;

    /// The value to fall back to when nothing stored can be recovered.
    spec fn spec_fallback() -> Self;

    /// Produce the fallback value.
    fn fallback() -> (result: Self)
        ensures
            result == Self::spec_fallback(),
    ;

    /// Encode this value as its canonical document.
    fn to_bytes(&self) -> (result: Vec<u8>)
        ensures
            result@ == self.encoding(),
    ;

    /// Recover a value from a stored document.
    fn from_bytes(bytes: &[u8]) -> (result: Option<Self>)
        ensures
            result == Self::decoded(bytes@),
    ;

    /// Decoding inverts encoding: every value written through `to_bytes`
    /// comes back unchanged through `from_bytes`.
    proof fn round_trip(self)
        ensures
            Self::decoded(self.encoding()) == Some(self),
    ;
}

impl Persist for Config {
    open spec fn encoding(self) -> Seq<u8> {
        codec::spec_encode_config(self)
    }

    open spec fn decoded(bytes: Seq<u8>) -> Option<Config> {
        codec::spec_decode_config(bytes)
    }

    open spec fn spec_fallback() -> Config {
        Config::spec_default()
    }

    fn fallback() -> (result: Config) {
        Config::default()
    }

    fn to_bytes(&self) -> (result: Vec<u8>) {
        codec::encode_config(self)
    }

    fn from_bytes(bytes: &[u8]) -> (result: Option<Config>) {
        codec::decode_config(bytes)
    }

    proof fn round_trip(self) {
        codec::lemma_config_round_trip(self);
    }
}

/// The persistence port: one durable document, replaced atomically.
///
/// `contents` models what is durably stored.  A read may fail (and then
/// reports nothing), but whatever it returns is the stored document; a
/// write either stores exactly the given bytes or leaves the old document
/// in place.
pub trait Storage {
    /// The stored document, if one exists.
    spec fn contents(&self) -> Option<Seq<u8>>;

    /// Read the stored document.
    fn read(&mut self) -> (result: Option<Vec<u8>>)
        ensures
            final(self).contents() == old(self).contents(),
            result matches Some(bytes) ==> old(self).contents() == Some(bytes@),
    ;

    /// Replace the stored document; `true` means the new document is
    /// durably in place.
    fn write(&mut self, bytes: &[u8]) -> (ok: bool)
        ensures
            ok ==> final(self).contents() == Some(bytes@),
            !ok ==> final(self).contents() == old(self).contents(),
    ;
}

/// An in-memory document store: the volatile stand-in for durable storage.
/// A surrounding program that has real storage seeds it with the document
/// it read and mirrors accepted documents back out.
pub struct MemStorage {
    data: Option<Vec<u8>>,
}

impl MemStorage {
    /// A store holding no document.
    pub fn empty() -> (result: MemStorage)
        ensures
            result.contents() is None,
    {
        MemStorage { data: None }
    }

    /// A store already holding a document, as after reading one back from
    /// durable storage.
    pub fn with_document(document: Option<Vec<u8>>) -> (result: MemStorage)
        ensures
            result.contents() == (match document {
                Some(bytes) => Some(bytes@),
                None => None::<Seq<u8>>,
            }),
    {
        MemStorage { data: document }
    }

    /// A copy of the stored document.
    pub fn document(&self) -> (result: Option<Vec<u8>>)
        ensures
            match result {
                Some(bytes) => self.contents() == Some(bytes@),
                None => self.contents() is None,
            },
    {
        match &self.data {
            Some(bytes) => Some(crate::bytes::copy_bytes(bytes)),
            None => None,
        }
    }
}

impl Storage for MemStorage {
    closed spec fn contents(&self) -> Option<Seq<u8>> {
        match self.data {
            Some(bytes) => Some(bytes@),
            None => None,
        }
    }

    fn read(&mut self) -> (result: Option<Vec<u8>>) {
        match &self.data {
            Some(bytes) => Some(crate::bytes::copy_bytes(bytes)),
            None => None,
        }
    }

    fn write(&mut self, bytes: &[u8]) -> (ok: bool) {
        self.data = Some(crate::bytes::copy_slice(bytes));
        true
    }
}

/// The persisted-value container: the in-memory value of record plus the
/// storage it is kept durable in.
pub struct Handler<T: Persist, S: Storage> {
    current: T,
    store: S,
}

impl<T: Persist, S: Storage> Handler<T, S> {
    /// The value of record.
    pub closed spec fn current(self) -> T {
        self.current
    }

    /// What the handler's storage durably holds.
    pub closed spec fn stored(self) -> Option<Seq<u8>> {
        self.store.contents()
    }

    /// Adopt a value recovered from storage: the decoded stored document,
    /// or the fallback when the read came back empty or undecodable.
    pub fn from_stored(store: S, stored: Option<Vec<u8>>) -> (result: Self)
        ensures
            result.stored() == store.contents(),
            result.current() == (match stored {
                Some(bytes) => (match T::decoded(bytes@) {
                    Some(value) => value,
                    None => T::spec_fallback(),
                }),
                None => T::spec_fallback(),
            }),
    {
        let current = match stored {
            Some(bytes) => {
                match T::from_bytes(bytes.as_slice()) {
                    Some(value) => value,
                    None => T::fallback(),
                }
            },
            None => T::fallback(),
        };
        Handler { current, store }
    }

    /// Load the value of record from storage.  A missing document, a failed
    /// read or an undecodable document falls back to the default rather
    /// than aborting startup; a stored document that decodes is adopted.
    pub fn new(store: S) -> (result: Self)
        ensures
            result.stored() == store.contents(),
            match store.contents() {
                Some(bytes) => result.current() == (match T::decoded(bytes) {
                    Some(value) => value,
                    None => T::spec_fallback(),
                }) || result.current() == T::spec_fallback(),
                None => result.current() == T::spec_fallback(),
            },
    {
        let mut store = store;
        let stored = store.read();
        Self::from_stored(store, stored)
    }

    /// A copy of the value of record.
    pub fn get(&self) -> (result: T)
        ensures
            result == self.current(),
    {
        self.current
    }

    /// Replace the value of record, then write it through synchronously.
    /// A write failure never rolls the in-memory value back, so storage may
    /// lag memory; `true` means the stored document now equals the value.
    pub fn set(&mut self, value: T) -> (ok: bool)
        ensures
            final(self).current() == value,
            ok ==> final(self).stored() == Some(value.encoding()),
            !ok ==> final(self).stored() == old(self).stored(),
    {
        self.current = value;
        let bytes = value.to_bytes();
        self.store.write(bytes.as_slice())
    }
}

/// Loading what was last set recovers the identical value: the stored
/// document of a value decodes back to that value, so a store, a process
/// restart and a load return what was written, absent concurrent writes.
pub proof fn lemma_set_then_load_recovers<T: Persist>(value: T)
    ensures
        T::decoded(value.encoding()) == Some(value),
{
    value.round_trip();
}

/// The configuration store's handler.
pub type ConfigHandler<S> = Handler<Config, S>;

/// One round of the configuration task: block for one event on this
/// consumer's bus handle and persist a configuration change; every other
/// event, and a closed bus, leaves the store untouched.  Whatever arrived,
/// storage holds either what it held before or exactly the encoding of the
/// new value of record.
pub fn config_service<S: Storage>(
    rx: &crossbeam_channel::Receiver<crate::event::Event>,
    handler: &mut Handler<Config, S>,
)
    ensures
        final(handler).stored() == old(handler).stored() || final(handler).stored() == Some(
            final(handler).current().encoding(),
        ),
{
    match crate::bus::recv_event(rx) {
        Some(crate::event::Event::ChangeConfig(config)) => {
            let _ = handler.set(config);
        },
        _ => {},
    }
}

} // verus!

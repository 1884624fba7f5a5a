//! What each kind of target platform gets.
//!
//! Desktop targets keep the secret in the operating system's secret store and
//! show a tray icon. Mobile targets have neither: the secret goes to a
//! stand-in and no tray is set up.

use vstd::prelude::*;

use crate::credentials::SecretStore;
use crate::text::same_text;

verus! {

/// The kinds of target the client is built for.
#[derive(Clone, Copy, Debug, PartialEq, Eq, Structural)]
pub enum Platform {
    /// A desktop operating system.
    Desktop,
    /// A phone or tablet.
    Mobile,
}

impl Platform {
    /// The kind of platform that an operating system of this name is:
    /// Android and iOS are mobile, every other system is a desktop.
    pub open spec fn spec_of_target_os(os: Seq<char>) -> Platform {
        if os == "android"@ || os == "ios"@ {
            Platform::Mobile
        } else {
            Platform::Desktop
        }
    }

    /// The backend that holds the secret on this kind of platform.
    pub open spec fn spec_secret_store(self) -> SecretStore {
        match self {
            Platform::Desktop => SecretStore::NativeKeychain,
            Platform::Mobile => SecretStore::Noop,
        }
    }

    /// Classifies a target by the name of its operating system, as the
    /// compiler spells it (`"linux"`, `"macos"`, `"windows"`, `"android"`,
    /// `"ios"`, ...).
    pub fn of_target_os(os: &str) -> (platform: Platform)
        ensures
            platform == Platform::spec_of_target_os(os@),
    {
        if same_text(os, "android") || same_text(os, "ios") {
            Platform::Mobile
        } else {
            Platform::Desktop
        }
    }

    /// Selects the backend for the secret: the native store on a desktop, the
    /// stand-in on a mobile target.
    pub fn secret_store(self) -> (store: SecretStore)
        ensures
            store == self.spec_secret_store(),
    {
        match self {
            Platform::Desktop => SecretStore::NativeKeychain,
            Platform::Mobile => SecretStore::Noop,
        }
    }

    /// Whether a tray icon is set up on this kind of platform: on a desktop
    /// only.
    pub fn has_tray(self) -> (tray: bool)
        ensures
            tray == (self is Desktop),
    {
        match self {
            Platform::Desktop => true,
            Platform::Mobile => false,
        }
    }
}

} // verus!

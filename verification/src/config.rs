//! Per-client configuration: credentials, language pair and feature flags.

use vstd::prelude::*;

use crate::lang::Lang;

verus! {

/// The configuration a client carries: account credentials, the language
/// pair, and the three optional features the account may have enabled.
pub struct Config {
    /// Account identifier, sent as the `appid` field.
    pub app_id: String,
    /// Shared secret; it never appears in a form, only in signature inputs.
    pub secret_key: String,
    /// Source language, `auto` by default.
    pub from: Lang,
    /// Target language, `auto` by default.
    pub to: Lang,
    /// Whether the account has the dictionary feature enabled.
    pub open_dict: bool,
    /// Whether the account has the text-to-speech feature enabled.
    pub open_tts: bool,
    /// Whether the account has the custom-terminology feature enabled.
    pub open_action: bool,
}

impl Config {
    /// A fresh configuration: the given credentials, automatic language
    /// detection on both sides, and every optional feature off.
    pub fn new(app_id: String, app_secret: String) -> (r: Self)
        ensures
            r.app_id == app_id,
            r.secret_key == app_secret,
            r.from == Lang::Auto,
            r.to == Lang::Auto,
            !r.open_dict,
            !r.open_tts,
            !r.open_action,
    {
        Self {
            app_id,
            secret_key: app_secret,
            from: Lang::default(),
            to: Lang::default(),
            open_dict: false,
            open_tts: false,
            open_action: false,
        }
    }

    /// Set the source language; nothing else changes.
    pub fn set_from(&mut self, from: Lang)
        ensures
            *final(self) == (Config { from, ..*old(self) }),
    {
        self.from = from;
    }

    /// Set the target language; nothing else changes.
    pub fn set_to(&mut self, to: Lang)
        ensures
            *final(self) == (Config { to, ..*old(self) }),
    {
        self.to = to;
    }
}

} // verus!

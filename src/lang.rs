use vstd::prelude::*;

verus! {

/// A language of the user interface.
#[derive(Clone, Copy, Debug, PartialEq, Eq, Structural)]
pub enum Lang {
    En,
    Fi,
    De,
    It,
}

/// A piece of user-interface text, with a version in each language.
#[allow(non_camel_case_types)]
#[derive(Clone, Copy, Debug, PartialEq, Eq, Structural)]
pub enum Key {
    battery_remaining,
    no_adapter_found,
    view_logs,
    view_updates,
    quit_program,
    device_charging,
    device_disconnected,
    battery_unavailable,
    version,
}

/// The language chosen for a locale tag; anything unknown falls back to English.
pub open spec fn lang_of(locale: Seq<char>) -> Lang {
    if locale == "fi"@ || locale == "fi-FI"@ {
        Lang::Fi
    } else if locale == "de"@ || locale == "de-DE"@ || locale == "de-AT"@ || locale == "de-CH"@ {
        Lang::De
    } else if locale == "it"@ || locale == "it-IT"@ || locale == "it-CH"@ {
        Lang::It
    } else {
        Lang::En
    }
}

/// The text of `key` in `lang`.
pub open spec fn text_of(lang: Lang, key: Key) -> Seq<char> {
    match lang {
        Lang::En => match key {
            Key::battery_remaining => "remaining"@,
            Key::no_adapter_found => "No headphone adapter found"@,
            Key::view_logs => "View logs"@,
            Key::view_updates => "View updates"@,
            Key::quit_program => "Close"@,
            Key::device_charging => "(Charging)"@,
            Key::device_disconnected => "(Disconnected)"@,
            Key::battery_unavailable => "(Battery unavailable)"@,
            Key::version => "Version"@,
        },
        Lang::Fi => match key {
            Key::battery_remaining => "jäljellä"@,
            Key::no_adapter_found => "Kuulokeadapteria ei löytynyt"@,
            Key::view_logs => "Näytä lokitiedostot"@,
            Key::view_updates => "Näytä päivitykset"@,
            Key::quit_program => "Sulje"@,
            Key::device_charging => "(Latautuu)"@,
            Key::device_disconnected => "(Ei yhteyttä)"@,
            Key::battery_unavailable => "(Akku ei saatavilla)"@,
            Key::version => "Versio"@,
        },
        Lang::De => match key {
            Key::battery_remaining => "verbleibend"@,
            Key::no_adapter_found => "Kein Kopfhöreradapter gefunden"@,
            Key::view_logs => "Protokolle anzeigen"@,
            Key::view_updates => "Updates anzeigen"@,
            Key::quit_program => "Beenden"@,
            Key::device_charging => "(Wird geladen)"@,
            Key::device_disconnected => "(Getrennt)"@,
            Key::battery_unavailable => "(Akkustand nicht verfügbar)"@,
            Key::version => "Version"@,
        },
        Lang::It => match key {
            Key::battery_remaining => "rimanente"@,
            Key::no_adapter_found => "Nessun adattatore per cuffie trovato"@,
            Key::view_logs => "Visualizza file di log"@,
            Key::view_updates => "Controlla aggiornamenti"@,
            Key::quit_program => "Chiudi"@,
            Key::device_charging => "(In carica)"@,
            Key::device_disconnected => "(Disconnesso)"@,
            Key::battery_unavailable => "(Batteria non disponibile)"@,
            Key::version => "Versione"@,
        },
    }
}

/// Whether two strings hold the same characters.
pub fn same_text(a: &str, b: &str) -> (r: bool)
    ensures
        r == (a@ == b@),
{
    let n = a.unicode_len();
    if n != b.unicode_len() {
        return false;
    }
    let mut i: usize = 0;
    while i < n
        invariant
            n == a@.len(),
            n == b@.len(),
            i <= n,
            a@.subrange(0, i as int) == b@.subrange(0, i as int),
        decreases n - i,
    {
        if a.get_char(i) != b.get_char(i) {
            assert(a@[i as int] != b@[i as int]);
            return false;
        }
        assert(a@.subrange(0, i + 1) == a@.subrange(0, i as int).push(a@[i as int]));
        assert(b@.subrange(0, i + 1) == b@.subrange(0, i as int).push(b@[i as int]));
        i = i + 1;
    }
    assert(a@ == a@.subrange(0, n as int));
    assert(b@ == b@.subrange(0, n as int));
    true
}

/// The language for a locale tag such as `de-AT`.
pub fn lang_for_locale(locale: &str) -> (r: Lang)
    ensures
        r == lang_of(locale@),
{
    if same_text(locale, "fi") || same_text(locale, "fi-FI") {
        Lang::Fi
    } else if same_text(locale, "de") || same_text(locale, "de-DE") || same_text(locale, "de-AT")
        || same_text(locale, "de-CH") {
        Lang::De
    } else if same_text(locale, "it") || same_text(locale, "it-IT") || same_text(locale, "it-CH") {
        Lang::It
    } else {
        Lang::En
    }
}

/// The text of `key` in `lang`.
pub fn text(lang: Lang, key: Key) -> (r: &'static str)
    ensures
        r@ == text_of(lang, key),
{
    match lang {
        Lang::En => match key {
            Key::battery_remaining => "remaining",
            Key::no_adapter_found => "No headphone adapter found",
            Key::view_logs => "View logs",
            Key::view_updates => "View updates",
            Key::quit_program => "Close",
            Key::device_charging => "(Charging)",
            Key::device_disconnected => "(Disconnected)",
            Key::battery_unavailable => "(Battery unavailable)",
            Key::version => "Version",
        },
        Lang::Fi => match key {
            Key::battery_remaining => "jäljellä",
            Key::no_adapter_found => "Kuulokeadapteria ei löytynyt",
            Key::view_logs => "Näytä lokitiedostot",
            Key::view_updates => "Näytä päivitykset",
            Key::quit_program => "Sulje",
            Key::device_charging => "(Latautuu)",
            Key::device_disconnected => "(Ei yhteyttä)",
            Key::battery_unavailable => "(Akku ei saatavilla)",
            Key::version => "Versio",
        },
        Lang::De => match key {
            Key::battery_remaining => "verbleibend",
            Key::no_adapter_found => "Kein Kopfhöreradapter gefunden",
            Key::view_logs => "Protokolle anzeigen",
            Key::view_updates => "Updates anzeigen",
            Key::quit_program => "Beenden",
            Key::device_charging => "(Wird geladen)",
            Key::device_disconnected => "(Getrennt)",
            Key::battery_unavailable => "(Akkustand nicht verfügbar)",
            Key::version => "Version",
        },
        Lang::It => match key {
            Key::battery_remaining => "rimanente",
            Key::no_adapter_found => "Nessun adattatore per cuffie trovato",
            Key::view_logs => "Visualizza file di log",
            Key::view_updates => "Controlla aggiornamenti",
            Key::quit_program => "Chiudi",
            Key::device_charging => "(In carica)",
            Key::device_disconnected => "(Disconnesso)",
            Key::battery_unavailable => "(Batteria non disponibile)",
            Key::version => "Versione",
        },
    }
}

/// Relies on sys_locale::get_locale: the user's locale tag, if the system
/// reports one. Nothing is promised of it.
#[verifier::external_body]
fn system_locale() -> (r: Option<String>) {
    sys_locale::get_locale()
}

/// The language of the system locale, English when none is reported.
pub fn system_lang() -> (r: Lang)
    ensures
        exists|locale: Seq<char>| r == lang_of(locale),
{
    match system_locale() {
        Some(locale) => lang_for_locale(locale.as_str()),
        None => lang_for_locale("en-US"),
    }
}

/// The text of `key` in the system's language.
pub fn t(key: Key) -> (r: &'static str)
    ensures
        exists|lang: Lang| r@ == text_of(lang, key),
{
    text(system_lang(), key)
}

} // verus!

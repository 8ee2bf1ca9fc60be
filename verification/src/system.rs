//! What the interface shows about the machine it runs on.

use vstd::prelude::*;
use vstd::string::*;

verus! {

/// The locale that is reported where the machine names none.
pub const DEFAULT_LOCALE: &'static str = "en-US";

/// The operating system, the architecture and the locale of the machine.
#[derive(Debug, Clone, PartialEq, Eq)]
pub struct SystemInfo {
    pub os: String,
    pub version: String,
    pub locale: String,
}

/// Calls `sys_locale::get_locale`, which asks the operating system for the
/// user's locale. The answer depends on the machine and its settings, so
/// nothing is claimed of it.
#[verifier::external_body]
pub(crate) fn system_locale() -> (locale: Option<String>) {
    sys_locale::get_locale()
}

/// The locale to report: the one found, or the default.
pub open spec fn locale_or_default(found: Option<Seq<char>>) -> Seq<char> {
    match found {
        Some(locale) => locale,
        None => DEFAULT_LOCALE@,
    }
}

/// How the specifications see a locale that was or was not found.
pub open spec fn locale_view(found: Option<String>) -> Option<Seq<char>> {
    match found {
        Some(locale) => Some(locale@),
        None => None,
    }
}

/// Puts the three facts together. A machine without a locale is reported as `en-US`.
pub fn system_info(os: &str, arch: &str, locale: Option<String>) -> (info: SystemInfo)
    ensures
        info.os@ == os@,
        info.version@ == arch@,
        info.locale@ == locale_or_default(locale_view(locale)),
{
    SystemInfo {
        os: String::from_str(os),
        version: String::from_str(arch),
        locale: match locale {
            Some(locale) => locale,
            None => String::from_str(DEFAULT_LOCALE),
        },
    }
}

/// Describes the machine: the given operating system and architecture, and
/// the locale that the operating system reports at this moment. What
/// becomes of each locale that may be reported, [`system_info`] says.
pub fn get_system_info(os: &str, arch: &str) -> (info: SystemInfo)
    ensures
        info.os@ == os@,
        info.version@ == arch@,
{
    system_info(os, arch, system_locale())
}

} // verus!

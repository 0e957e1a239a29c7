//! Where configuration values come from: the file itself, the environment, and
//! the secrets store.
use crate::string_map::StringMap;
use crate::text;
use vstd::prelude::*;

verus! {

/// What references in a configuration are resolved against.
#[derive(Debug, PartialEq, Eq)]
pub struct ResolveContext {
    /// The environment variables.
    pub env: StringMap<String>,
    /// The stored secrets, where a store is open.
    pub secrets: Option<StringMap<String>>,
}

/// The text of a variable.
pub open spec fn lookup(map: StringMap<String>, name: Seq<char>) -> Option<Seq<char>> {
    if map@.contains_key(name) {
        Some(map@[name]@)
    } else {
        None
    }
}

impl ResolveContext {
    /// The value of an environment variable.
    pub open spec fn var(&self, name: Seq<char>) -> Option<Seq<char>> {
        lookup(self.env, name)
    }

    /// The value of an environment variable.
    pub fn env_var(&self, name: &str) -> (value: Option<String>)
        ensures
            text::view_of(value) == self.var(name@),
    {
        self.env.get_owned(name)
    }
}

/// What a value stands for: `secret:NAME` for a stored secret, `env:NAME` for an
/// environment variable, and anything else for itself. A reference to what is not
/// there stands for nothing.
pub open spec fn resolved(context: ResolveContext, value: Seq<char>) -> Option<Seq<char>> {
    match text::after_prefix(value, "secret:"@) {
        Some(alias) => match context.secrets {
            Some(store) => lookup(store, alias),
            None => None,
        },
        None => match text::after_prefix(value, "env:"@) {
            Some(name) => context.var(name),
            None => Some(value),
        },
    }
}

/// What an optional value stands for.
pub open spec fn resolved_option(context: ResolveContext, value: Option<String>) -> Option<
    Seq<char>,
> {
    match value {
        Some(v) => resolved(context, v@),
        None => None,
    }
}

/// The first of two optional values that is there.
pub open spec fn or_else<T>(first: Option<T>, second: Option<T>) -> Option<T> {
    match first {
        Some(v) => Some(v),
        None => second,
    }
}

/// The value where there is one, else nothing.
pub open spec fn or_empty(value: Option<Seq<char>>) -> Seq<char> {
    match value {
        Some(v) => v,
        None => Seq::empty(),
    }
}

/// Sets the secrets store that references are resolved against.
pub fn set_resolve_secrets_store(context: &mut ResolveContext, store: StringMap<String>)
    ensures
        final(context).secrets == Some(store),
        final(context).env == old(context).env,
{
    context.secrets = Some(store);
}

/// Resolves a value that may be a reference.
pub fn resolve_env_value(context: &ResolveContext, value: &str) -> (result: Option<String>)
    ensures
        text::view_of(result) == resolved(*context, value@),
{
    if let Some(alias) = text::strip_prefix(value, "secret:") {
        match &context.secrets {
            Some(store) => store.get_owned(alias.as_str()),
            None => None,
        }
    } else if let Some(name) = text::strip_prefix(value, "env:") {
        context.env_var(name.as_str())
    } else {
        Some(value.to_owned())
    }
}

/// Resolves an optional value.
pub fn resolve_option(context: &ResolveContext, value: &Option<String>) -> (result: Option<String>)
    ensures
        text::view_of(result) == resolved_option(*context, *value),
{
    match value {
        Some(v) => resolve_env_value(context, v.as_str()),
        None => None,
    }
}

/// Resolves a value of the file, and falls back on an environment variable.
pub fn file_then_env(context: &ResolveContext, value: &Option<String>, name: &str) -> (result:
    Option<String>)
    ensures
        text::view_of(result) == or_else(resolved_option(*context, *value), context.var(name@)),
{
    match resolve_option(context, value) {
        Some(v) => Some(v),
        None => context.env_var(name),
    }
}

/// Takes an environment variable, and falls back on a value of the file.
pub fn env_then_file(context: &ResolveContext, name: &str, value: &Option<String>) -> (result:
    Option<String>)
    ensures
        text::view_of(result) == or_else(context.var(name@), resolved_option(*context, *value)),
{
    match context.env_var(name) {
        Some(v) => Some(v),
        None => resolve_option(context, value),
    }
}

/// The text, or an empty one.
pub fn text_or_empty(value: Option<String>) -> (result: String)
    ensures
        result@ == or_empty(text::view_of(value)),
{
    match value {
        Some(v) => v,
        None => String::new(),
    }
}

/// The text that `str::to_lowercase` makes of a text.
pub uninterp spec fn lowercased(s: Seq<char>) -> Seq<char>;

/// A text of small ASCII letters, digits and hyphens, as the ids of providers are.
pub open spec fn is_plain(s: Seq<char>) -> bool {
    forall|i: int|
        0 <= i < s.len() ==> ('a' <= #[trigger] s[i] <= 'z' || '0' <= s[i] <= '9' || s[i] == '-')
}

/// No character of the text is a capital ASCII letter.
pub open spec fn has_no_capitals(s: Seq<char>) -> bool {
    forall|i: int| 0 <= i < s.len() ==> !('A' <= #[trigger] s[i] <= 'Z')
}

/// `str::to_lowercase`: the lower-case equivalent of a text, by the Unicode rules.
/// It depends on the text alone and has no capital ASCII letters, and small ASCII
/// letters, digits and hyphens stay as they are.
#[verifier::external_body]
pub(crate) fn lowercase(s: &str) -> (lower: String)
    ensures
        lower@ == lowercased(s@),
        is_plain(s@) ==> lower@ == s@,
        has_no_capitals(lower@),
{
    s.to_lowercase()
}

/// The message with which `reqwest::Url::parse` refuses a text, where it does.
pub uninterp spec fn url_refusal(s: Seq<char>) -> Option<Seq<char>>;

/// `reqwest::Url::parse`: the message of its error, and none where the text is a
/// URL. It depends on the text alone.
#[verifier::external_body]
pub(crate) fn url_error(s: &str) -> (message: Option<String>)
    ensures
        text::view_of(message) == url_refusal(s@),
{
    reqwest::Url::parse(s).err().map(|error| error.to_string())
}

} // verus!

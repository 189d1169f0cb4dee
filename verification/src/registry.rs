//! The language registry: the authoritative source for which languages
//! are enabled, built from the names found in the deployment's language
//! configuration.

use vstd::prelude::*;

verus! {

use crate::text::str_eq;
use crate::types::Language;

/// The canonical name of a language, as it appears in queue names,
/// configuration files and environment variables.
pub open spec fn lang_name(l: Language) -> Seq<char> {
    match l {
        Language::Python => "python"@,
        Language::Java => "java"@,
        Language::Rust => "rust"@,
    }
}

/// The language a canonical name denotes, if any.
pub open spec fn spec_lang_of_name(s: Seq<char>) -> Option<Language> {
    if s == "python"@ {
        Some(Language::Python)
    } else if s == "java"@ {
        Some(Language::Java)
    } else if s == "rust"@ {
        Some(Language::Rust)
    } else {
        None
    }
}

impl Language {
    /// The canonical name of this language.
    pub fn as_str(&self) -> (r: &'static str)
        ensures
            r@ == lang_name(*self),
    {
        match self {
            Language::Python => "python",
            Language::Java => "java",
            Language::Rust => "rust",
        }
    }

    /// Parse a canonical language name.
    pub fn from_str(s: &str) -> (r: Option<Language>)
        ensures
            r == spec_lang_of_name(s@),
    {
        if str_eq(s, "python") {
            Some(Language::Python)
        } else if str_eq(s, "java") {
            Some(Language::Java)
        } else if str_eq(s, "rust") {
            Some(Language::Rust)
        } else {
            None
        }
    }

    /// Every language the service knows of.
    pub fn all_variants() -> (r: Vec<Language>)
        ensures
            r@ == seq![Language::Python, Language::Java, Language::Rust],
    {
        let mut v: Vec<Language> = Vec::new();
        v.push(Language::Python);
        v.push(Language::Java);
        v.push(Language::Rust);
        proof {
            assert(v@ =~= seq![Language::Python, Language::Java, Language::Rust]);
        }
        v
    }
}

/// How a language configuration is executed: command, arguments and the
/// conventional source-file extension.
#[derive(Debug, Clone)]
pub struct ExecutionConfig {
    pub command: String,
    pub args: Vec<String>,
    pub file_extension: String,
}

/// Why a registry could not be built from a configuration.
#[derive(Debug, Clone)]
pub enum RegistryError {
    /// A configured name denotes no known language.
    UnknownLanguage(String),
    /// The configuration names no languages at all.
    NoLanguages,
}

/// Whether a vector of languages holds one.
fn contains_language(v: &Vec<Language>, l: Language) -> (r: bool)
    ensures
        r == v@.contains(l),
{
    let mut i: usize = 0;
    while i < v.len()
        invariant
            0 <= i <= v@.len(),
            forall|k: int| 0 <= k < i ==> v@[k] != l,
        decreases v@.len() - i,
    {
        if v[i] == l {
            return true;
        }
        i = i + 1;
    }
    false
}

/// Registry of configured languages; a submission is admitted only for
/// a language found here.
#[derive(Debug, Clone)]
pub struct LanguageRegistry {
    enabled: Vec<Language>,
}

impl LanguageRegistry {
    /// The languages this registry enables.
    pub closed spec fn enabled_spec(self) -> Seq<Language> {
        self.enabled@
    }

    /// Build a registry from the language names of a configuration.
    /// Fails on an empty configuration and on any unknown name;
    /// enables exactly the named languages otherwise, each at most
    /// once however often the configuration repeats it.
    pub fn from_names(names: &Vec<String>) -> (r: Result<LanguageRegistry, RegistryError>)
        ensures
            names@.len() == 0 ==> r matches Err(RegistryError::NoLanguages),
            (names@.len() > 0 && forall|i: int|
                0 <= i < names@.len() ==> #[trigger] spec_lang_of_name(names@[i]@) is Some)
                ==> r is Ok,
            r matches Ok(reg) ==> {
                &&& forall|l: Language|
                    #[trigger] reg.enabled_spec().contains(l) <==> exists|i: int|
                        0 <= i < names@.len() && spec_lang_of_name(#[trigger] names@[i]@)
                            == Some(l)
                &&& forall|p: int, q: int|
                    0 <= p < q < reg.enabled_spec().len() ==> reg.enabled_spec()[p]
                        != reg.enabled_spec()[q]
            },
            r matches Err(RegistryError::UnknownLanguage(n)) ==> exists|i: int|
                0 <= i < names@.len() && #[trigger] names@[i]@ == n@ && spec_lang_of_name(n@)
                    is None,
            (exists|i: int|
                0 <= i < names@.len() && #[trigger] spec_lang_of_name(names@[i]@) is None)
                ==> r is Err,
    {
        if names.len() == 0 {
            return Err(RegistryError::NoLanguages);
        }
        let mut enabled: Vec<Language> = Vec::new();
        let mut i: usize = 0;
        while i < names.len()
            invariant
                0 <= i <= names@.len(),
                forall|k: int| 0 <= k < i ==> #[trigger] spec_lang_of_name(names@[k]@) is Some,
                forall|l: Language|
                    #[trigger] enabled@.contains(l) <==> exists|k: int|
                        0 <= k < i && spec_lang_of_name(#[trigger] names@[k]@) == Some(l),
                forall|p: int, q: int|
                    0 <= p < q < enabled@.len() ==> enabled@[p] != enabled@[q],
            decreases names@.len() - i,
        {
            match Language::from_str(names[i].as_str()) {
                Some(lang) => {
                    if !contains_language(&enabled, lang) {
                        let ghost before = enabled@;
                        enabled.push(lang);
                        proof {
                            assert forall|l: Language| #[trigger]
                                enabled@.contains(l) <==> (before.contains(l) || l
                                == lang) by {
                                if enabled@.contains(l) {
                                    let idx = choose|idx: int|
                                        0 <= idx < enabled@.len() && enabled@[idx] == l;
                                    if idx < before.len() {
                                        assert(before[idx] == l);
                                        assert(before.contains(l));
                                    }
                                }
                                if before.contains(l) {
                                    let idx = choose|idx: int|
                                        0 <= idx < before.len() && before[idx] == l;
                                    assert(enabled@[idx] == l);
                                }
                                if l == lang {
                                    assert(enabled@[before.len() as int] == lang);
                                }
                            }
                        }
                    } else {
                        proof {
                            assert(enabled@.contains(lang));
                        }
                    }
                },
                None => {
                    return Err(RegistryError::UnknownLanguage(names[i].clone()));
                },
            }
            i = i + 1;
        }
        Ok(LanguageRegistry { enabled })
    }

    /// Whether a language is enabled.
    pub fn is_enabled(&self, language: Language) -> (r: bool)
        ensures
            r == self.enabled_spec().contains(language),
    {
        let mut i: usize = 0;
        while i < self.enabled.len()
            invariant
                0 <= i <= self.enabled@.len(),
                forall|k: int| 0 <= k < i ==> self.enabled@[k] != language,
            decreases self.enabled@.len() - i,
        {
            if self.enabled[i] == language {
                return true;
            }
            i = i + 1;
        }
        false
    }

    /// All enabled languages, in configuration order.
    pub fn enabled_languages(&self) -> (r: Vec<Language>)
        ensures
            r@ == self.enabled_spec(),
    {
        let mut v: Vec<Language> = Vec::new();
        let mut i: usize = 0;
        while i < self.enabled.len()
            invariant
                0 <= i <= self.enabled@.len(),
                v@ == self.enabled@.subrange(0, i as int),
            decreases self.enabled@.len() - i,
        {
            v.push(self.enabled[i]);
            proof {
                assert(v@ =~= self.enabled@.subrange(0, i + 1));
            }
            i = i + 1;
        }
        proof {
            assert(self.enabled@.subrange(0, self.enabled@.len() as int) =~= self.enabled@);
        }
        v
    }
}

} // verus!

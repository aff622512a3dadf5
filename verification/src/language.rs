use vstd::prelude::*;

verus! {

/// A language that the translation service knows.
#[derive(Clone, Copy, Debug, PartialEq, Eq, Structural)]
pub enum Language {
    Auto,
    English,
    Chinese,
    Japanese,
}

/// The name that the translation service expects for a language.
pub open spec fn service_name(lang: Language) -> Seq<char> {
    match lang {
        Language::Auto => "auto"@,
        Language::English => "English"@,
        Language::Chinese => "Chinese"@,
        Language::Japanese => "Japanese"@,
    }
}

/// The label that the window shows for a language.
pub open spec fn label(lang: Language) -> Seq<char> {
    match lang {
        Language::Auto => "自动"@,
        Language::English => "英语"@,
        Language::Chinese => "中文"@,
        Language::Japanese => "日语"@,
    }
}

impl Language {
    /// The full language name that the translation service requires.
    pub fn full_name(&self) -> (res: &'static str)
        ensures
            res@ == service_name(*self),
    {
        match self {
            Language::Auto => "auto",
            Language::English => "English",
            Language::Chinese => "Chinese",
            Language::Japanese => "Japanese",
        }
    }

    /// The label shown in the window.
    pub fn display(&self) -> (res: &'static str)
        ensures
            res@ == label(*self),
    {
        match self {
            Language::Auto => "自动",
            Language::English => "英语",
            Language::Chinese => "中文",
            Language::Japanese => "日语",
        }
    }
}

/// Different languages have different service names, and different labels.
pub proof fn lemma_service_names_distinct(a: Language, b: Language)
    ensures
        service_name(a) == service_name(b) ==> a == b,
        label(a) == label(b) ==> a == b,
{
    reveal_strlit("auto");
    reveal_strlit("English");
    reveal_strlit("Chinese");
    reveal_strlit("Japanese");
    reveal_strlit("自动");
    reveal_strlit("英语");
    reveal_strlit("中文");
    reveal_strlit("日语");
    if service_name(a) == service_name(b) && a != b {
        assert(service_name(a).len() != service_name(b).len() || service_name(a)[0] != service_name(
            b,
        )[0]);
    }
    if label(a) == label(b) && a != b {
        assert(label(a)[0] != label(b)[0] || label(a)[1] != label(b)[1]);
    }
}

} // verus!

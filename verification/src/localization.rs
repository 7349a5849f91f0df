//! Localization: which locale a bundle is for, and where its files are.

use vstd::prelude::*;

verus! {

/// The canonical text of the language identifier that `text` parses to, if
/// it parses.
pub uninterp spec fn canonical_language_tag(text: Seq<char>) -> Option<Seq<char>>;

/// Parses `text` with `unic_langid::LanguageIdentifier::from_bytes` and
/// formats the identifier back with its `Display`. Claimed: the result is
/// `canonical_language_tag(text)`, `None` when parsing fails. What parses and
/// how it is normalised (case of subtags, order of variants) is left to the
/// outside crate.
#[verifier::external_body]
fn parse_language_tag(text: &str) -> (tag: Option<String>)
    ensures
        tag matches Some(t) ==> canonical_language_tag(text@) == Some(t@),
        tag is None ==> canonical_language_tag(text@) is None,
{
    match unic_langid::LanguageIdentifier::from_bytes(text.as_bytes()) {
        Ok(id) => Some(id.to_string()),
        Err(_) => None,
    }
}

/// A language identifier, held as its canonical text (`en-US`); two
/// identifiers are equal when their canonical texts are.
#[derive(Clone, Debug)]
pub struct LocaleId {
    text: String,
}

impl LocaleId {
    /// The canonical text.
    pub closed spec fn spec_text(&self) -> Seq<char> {
        self.text@
    }

    /// Parses a language identifier; `None` if `text` is not one.
    pub fn parse(text: &str) -> (id: Option<LocaleId>)
        ensures
            id matches Some(l) ==> canonical_language_tag(text@) == Some(l.spec_text()),
            id is None ==> canonical_language_tag(text@) is None,
    {
        match parse_language_tag(text) {
            Some(t) => Some(LocaleId { text: t }),
            None => None,
        }
    }

    /// `en-US`, the fallback locale.
    pub fn en_us() -> (id: LocaleId)
        ensures
            id.spec_text() == "en-US"@,
    {
        proof {
            reveal_strlit("en-US");
        }
        LocaleId { text: String::from_str("en-US") }
    }

    /// The canonical text.
    pub fn as_str(&self) -> (s: &str)
        ensures
            s@ == self.spec_text(),
    {
        self.text.as_str()
    }

    /// Whether two identifiers are the same.
    pub fn same_as(&self, other: &LocaleId) -> (b: bool)
        ensures
            b == (self.spec_text() == other.spec_text()),
    {
        self.text.eq(&other.text)
    }
}

/// The directory that holds all locales.
pub const LOCALES_ROOT: &'static str = "../localization/locales";

/// The locale a bundle is for, and the path of its files, as the components
/// pushed one after the other onto `LOCALES_ROOT`.
#[derive(Debug)]
pub struct BundlePlan {
    pub locale: LocaleId,
    pub root: Vec<String>,
}

/// The request asks for the fallback locale.
pub open spec fn is_fallback(requested: Option<LocaleId>) -> bool {
    requested matches Some(l) && l.spec_text() == "en-US"@
}

/// The path components of a bundle's root: `LOCALES_ROOT`, then, unless the
/// request is for no locale or for the fallback, the requested locale and the
/// modules in order.
pub open spec fn bundle_root(requested: Option<LocaleId>, modules: Seq<Seq<char>>) -> Seq<
    Seq<char>,
> {
    match requested {
        Some(l) if !is_fallback(requested) => seq!["../localization/locales"@, l.spec_text()]
            + modules,
        _ => seq!["../localization/locales"@],
    }
}

/// Plans the bundle for `requested` (the fallback `en-US` when `None`) made
/// of `modules`.
pub fn create_bundle(requested: Option<LocaleId>, modules: &Vec<String>) -> (plan: BundlePlan)
    ensures
        plan.locale.spec_text() == match requested {
            Some(l) => l.spec_text(),
            None => "en-US"@,
        },
        plan.root@.map_values(|c: String| c@) == bundle_root(requested, modules@.map_values(
            |m: String| m@,
        )),
{
    proof {
        reveal_strlit("../localization/locales");
    }
    let fallback = LocaleId::en_us();
    let is_fallback = match &requested {
        Some(l) => l.same_as(&fallback),
        None => false,
    };
    let mut root: Vec<String> = Vec::new();
    root.push(String::from_str(LOCALES_ROOT));
    let locale = match requested {
        Some(ident) => {
            if !is_fallback {
                root.push(ident.text.clone());
                let mut i: usize = 0;
                while i < modules.len()
                    invariant
                        i <= modules.len(),
                        root@.map_values(|c: String| c@) == seq![
                            "../localization/locales"@,
                            ident.spec_text(),
                        ] + modules@.take(i as int).map_values(|m: String| m@),
                    decreases modules.len() - i,
                {
                    let ghost before = root@;
                    root.push(modules[i].clone());
                    assert(root@.map_values(|c: String| c@) =~= before.map_values(|c: String| c@).push(
                        modules@[i as int]@,
                    ));
                    assert(modules@.take(i + 1).map_values(|m: String| m@) =~= modules@.take(
                        i as int,
                    ).map_values(|m: String| m@).push(modules@[i as int]@));
                    i = i + 1;
                }
                assert(modules@.take(modules.len() as int) =~= modules@);
            }
            ident
        },
        None => fallback,
    };
    BundlePlan { locale, root }
}

/// The path made of the components, joined with `/`.
pub open spec fn joined_path(components: Seq<Seq<char>>) -> Seq<char>
    decreases components.len(),
{
    if components.len() == 0 {
        Seq::empty()
    } else if components.len() == 1 {
        components[0]
    } else {
        joined_path(components.drop_last()) + "/"@ + components.last()
    }
}

/// The text of the path that pushing the components one after the other
/// gives, for relative components: they joined with `/`.
pub fn join_path(components: &Vec<String>) -> (path: String)
    ensures
        path@ == joined_path(components@.map_values(|c: String| c@)),
{
    proof {
        reveal_strlit("/");
    }
    let ghost texts = components@.map_values(|c: String| c@);
    let mut path = String::new();
    let mut i: usize = 0;
    while i < components.len()
        invariant
            i <= components.len(),
            texts == components@.map_values(|c: String| c@),
            path@ == joined_path(texts.take(i as int)),
        decreases components.len() - i,
    {
        assert(texts.take(i + 1).drop_last() =~= texts.take(i as int));
        assert(texts.take(i + 1).last() == components@[i as int]@);
        if i > 0 {
            path.append("/");
        } else {
            assert(texts.take(0) =~= Seq::<Seq<char>>::empty());
            assert(path@ =~= Seq::<char>::empty());
        }
        path.append(components[i].as_str());
        i = i + 1;
    }
    assert(texts.take(components.len() as int) =~= texts);
    path
}

/// The answer once the existence of the bundle root has been checked: the
/// root must exist; a failed check gives its error's message.
pub fn bundle_outcome(root_text: &str, root_exists: Result<bool, String>) -> (r: Result<(), String>)
    ensures
        match root_exists {
            Ok(true) => r is Ok,
            Ok(false) => r matches Err(m) && m@ == "localization root not found: "@ + root_text@,
            Err(e) => r matches Err(m) && m@ == e@,
        },
{
    proof {
        reveal_strlit("localization root not found: ");
    }
    match root_exists {
        Ok(true) => Ok(()),
        Ok(false) => {
            let mut message = String::from_str("localization root not found: ");
            message.append(root_text);
            Err(message)
        },
        Err(e) => Err(e),
    }
}

/// Any locale other than exactly `en-US` gets its own directory: the root
/// is the locales directory, then the locale's text, then the modules in order.
pub proof fn lemma_other_locale_root(locale: LocaleId, modules: Seq<Seq<char>>)
    requires
        locale.spec_text() != "en-US"@,
    ensures
        bundle_root(Some(locale), modules).len() == modules.len() + 2,
        bundle_root(Some(locale), modules)[0] == "../localization/locales"@,
        bundle_root(Some(locale), modules)[1] == locale.spec_text(),
        forall|i: int|
            0 <= i < modules.len() ==> #[trigger] bundle_root(Some(locale), modules)[i + 2]
                == modules[i],
{
}

/// Asking for the fallback locale gives the same root as asking for none:
/// only the locales directory, whatever the modules.
pub proof fn lemma_fallback_root_is_default_root(fallback: LocaleId, modules: Seq<Seq<char>>)
    requires
        fallback.spec_text() == "en-US"@,
    ensures
        bundle_root(Some(fallback), modules) == bundle_root(None, modules),
        bundle_root(None, modules) == seq!["../localization/locales"@],
{
}

} // verus!

//! Localized messages: the language in use and the messages a server has
//! put in place of the standard ones.

use vstd::prelude::*;
use vstd::string::*;
use vstd::hash_map::StringHashMap;
use crate::text::{as_map, entry_views, replace_all, replaced, same_text};

verus! {

/// The languages messages are available in.
#[derive(Debug, Clone, Copy, PartialEq, Eq, Structural)]
pub enum Language {
    English,
    Japanese,
}

/// The lower-case form of a text as `str::to_lowercase` gives it.
pub uninterp spec fn lowercased(text: Seq<char>) -> Seq<char>;

/// Calls `str::to_lowercase`.  The result is a function of the text alone
/// and is known here by name only.
#[verifier::external_body]
fn lowercase(text: &str) -> (r: String)
    ensures
        r@ == lowercased(text@),
{
    text.to_lowercase()
}

impl Language {
    /// The locale code of the language.
    pub open spec fn spec_locale(self) -> Seq<char> {
        match self {
            Language::English => "en"@,
            Language::Japanese => "ja"@,
        }
    }

    /// The language that a lower-case name stands for.
    pub open spec fn spec_from_name(name: Seq<char>) -> Option<Language> {
        if name == "en"@ || name == "english"@ || name == "eng"@ {
            Some(Language::English)
        } else if name == "ja"@ || name == "japanese"@ || name == "jpn"@ || name == "jp"@ {
            Some(Language::Japanese)
        } else {
            None
        }
    }

    pub fn to_locale(&self) -> (s: &'static str)
        ensures
            s@ == self.spec_locale(),
    {
        match self {
            Language::English => "en",
            Language::Japanese => "ja",
        }
    }

    /// The language whose locale code is `locale`.
    pub open spec fn spec_from_locale(locale: Seq<char>) -> Option<Language> {
        if locale == Language::English.spec_locale() {
            Some(Language::English)
        } else if locale == Language::Japanese.spec_locale() {
            Some(Language::Japanese)
        } else {
            None
        }
    }

    /// The language whose locale code is `locale`.
    pub fn from_locale(locale: &str) -> (r: Option<Language>)
        ensures
            r == Self::spec_from_locale(locale@),
            r matches Some(language) ==> language.spec_locale() == locale@,
            r is None ==> forall|language: Language| #[trigger]
                language.spec_locale() != locale@,
    {
        if same_text(locale, "en") {
            Some(Language::English)
        } else if same_text(locale, "ja") {
            Some(Language::Japanese)
        } else {
            None
        }
    }

    /// The language that `name`, written in lower case, stands for.
    pub fn from_name(name: &str) -> (r: Option<Language>)
        ensures
            r == Self::spec_from_name(name@),
    {
        if same_text(name, "en") || same_text(name, "english") || same_text(name, "eng") {
            Some(Language::English)
        } else if same_text(name, "ja") || same_text(name, "japanese") || same_text(name, "jpn")
            || same_text(name, "jp") {
            Some(Language::Japanese)
        } else {
            None
        }
    }

    /// The language that `lang` stands for, in whatever case it is written.
    pub fn from_str(lang: &str) -> (r: Option<Language>)
        ensures
            r == Self::spec_from_name(lowercased(lang@)),
    {
        let name = lowercase(lang);
        Self::from_name(name.as_str())
    }
}

/// The two languages have different locale codes.
pub proof fn lemma_locales_differ()
    ensures
        Language::English.spec_locale() != Language::Japanese.spec_locale(),
{
    reveal_strlit("en");
    reveal_strlit("ja");
    assert("en"@[0] != "ja"@[0]);
}

impl Default for Language {
    fn default() -> (language: Language)
        ensures
            language == Language::English,
    {
        Language::English
    }
}

/// The messages a server has put in place of the standard ones, by
/// language.
struct CustomMessageStore {
    english: StringHashMap<String>,
    japanese: StringHashMap<String>,
}

/// The texts of a map of strings.
spec fn texts(messages: Map<Seq<char>, String>) -> Map<Seq<char>, Seq<char>> {
    messages.map_values(|message: String| message@)
}

impl CustomMessageStore {
    spec fn of(self, language: Language) -> Map<Seq<char>, Seq<char>> {
        match language {
            Language::English => texts(self.english@),
            Language::Japanese => texts(self.japanese@),
        }
    }

    fn new() -> (store: CustomMessageStore)
        ensures
            forall|language: Language|
                #[trigger] store.of(language) == Map::<Seq<char>, Seq<char>>::empty(),
    {
        let store = CustomMessageStore {
            english: StringHashMap::new(),
            japanese: StringHashMap::new(),
        };
        assert(texts(store.english@) =~= Map::empty());
        assert(texts(store.japanese@) =~= Map::empty());
        store
    }

    fn get(&self, key: &str, language: Language) -> (r: Option<String>)
        ensures
            match r {
                Some(message) => self.of(language).contains_key(key@) && message@ == self.of(
                    language,
                )[key@],
                None => !self.of(language).contains_key(key@),
            },
    {
        let found = match language {
            Language::English => self.english.get(key),
            Language::Japanese => self.japanese.get(key),
        };
        match found {
            Some(message) => Some(message.clone()),
            None => None,
        }
    }

    fn set(&mut self, language: Language, key: &str, message: &str)
        ensures
            final(self).of(language) == old(self).of(language).insert(key@, message@),
            forall|other: Language|
                other != language ==> #[trigger] final(self).of(other) == old(self).of(other),
    {
        match language {
            Language::English => {
                self.english.insert(String::from_str(key), String::from_str(message));
                assert(texts(self.english@) =~= texts(old(self).english@).insert(key@, message@));
            },
            Language::Japanese => {
                self.japanese.insert(String::from_str(key), String::from_str(message));
                assert(texts(self.japanese@) =~= texts(old(self).japanese@).insert(
                    key@,
                    message@,
                ));
            },
        }
    }

    fn clear_language(&mut self, language: Language)
        ensures
            final(self).of(language) == Map::<Seq<char>, Seq<char>>::empty(),
            forall|other: Language|
                other != language ==> #[trigger] final(self).of(other) == old(self).of(other),
    {
        match language {
            Language::English => {
                self.english.clear();
                assert(texts(self.english@) =~= Map::empty());
            },
            Language::Japanese => {
                self.japanese.clear();
                assert(texts(self.japanese@) =~= Map::empty());
            },
        }
    }

    fn clear(&mut self)
        ensures
            forall|language: Language|
                #[trigger] final(self).of(language) == Map::<Seq<char>, Seq<char>>::empty(),
    {
        self.english.clear();
        self.japanese.clear();
        assert(texts(self.english@) =~= Map::empty());
        assert(texts(self.japanese@) =~= Map::empty());
    }
}

/// One file of custom messages: the locale it is named after and what it
/// holds.
#[derive(Debug, Clone, PartialEq, Eq)]
pub struct MessageFile {
    pub locale: String,
    pub content: String,
}

/// The messages of one locale: its name and the messages by key.
#[derive(Debug, Clone, PartialEq, Eq)]
pub struct LocaleMessages {
    pub locale: String,
    pub entries: Vec<(String, String)>,
}

/// What `serde_json` reads from a text as an object of strings: its members
/// in the order of their names, or nothing where the text is no such
/// object.
pub uninterp spec fn json_messages(content: Seq<char>) -> Option<Seq<(Seq<char>, Seq<char>)>>;

/// Reads a JSON object whose members are strings with
/// `serde_json::from_str`, into a map ordered by name.  The result is a
/// function of the text alone and is known here by name only; the error is
/// the parser's own message.
#[verifier::external_body]
fn parse_messages(content: &str) -> (r: Result<Vec<(String, String)>, String>)
    ensures
        match r {
            Ok(entries) => json_messages(content@) == Some(entry_views(entries@)),
            Err(_) => json_messages(content@) is None,
        },
{
    match serde_json::from_str::<std::collections::BTreeMap<String, String>>(content) {
        Ok(members) => Ok(members.into_iter().collect()),
        Err(e) => Err(e.to_string()),
    }
}

/// What a list of locales holds, as plain values.
pub open spec fn locale_views(locales: Seq<LocaleMessages>) -> Seq<
    (Seq<char>, Seq<(Seq<char>, Seq<char>)>),
> {
    locales.map_values(|l: LocaleMessages| (l.locale@, entry_views(l.entries@)))
}

/// The custom messages of `language` after the locales were put in place:
/// those of the last locale that is named like the language, none where no
/// locale is.
pub open spec fn installed(
    locales: Seq<(Seq<char>, Seq<(Seq<char>, Seq<char>)>)>,
    language: Language,
) -> Map<Seq<char>, Seq<char>>
    decreases locales.len(),
{
    if locales.len() == 0 {
        Map::empty()
    } else if locales.last().0 == language.spec_locale() {
        as_map(locales.last().1)
    } else {
        installed(locales.drop_last(), language)
    }
}

/// What the files hold once each is read: whether all of them can be read,
/// and what they hold if so.
pub open spec fn all_readable(files: Seq<MessageFile>) -> bool {
    forall|i: int| 0 <= i < files.len() ==> json_messages((#[trigger] files[i]).content@) is Some
}

/// The locales that the files give.
pub open spec fn read_files(files: Seq<MessageFile>) -> Seq<
    (Seq<char>, Seq<(Seq<char>, Seq<char>)>),
> {
    files.map_values(|f: MessageFile| (f.locale@, json_messages(f.content@)->Some_0))
}

/// A parameter written with one pair of braces.
pub open spec fn single_braced(name: Seq<char>) -> Seq<char> {
    "{"@ + name + "}"@
}

/// A parameter written with two pairs of braces.
pub open spec fn double_braced(name: Seq<char>) -> Seq<char> {
    "{{"@ + name + "}}"@
}

/// `text` with the parameters filled in, one after the other: first where a
/// parameter stands in double braces, then where it stands in single ones.
pub open spec fn substituted(text: Seq<char>, params: Seq<(Seq<char>, Seq<char>)>) -> Seq<char>
    decreases params.len(),
{
    if params.len() == 0 {
        text
    } else {
        let before = substituted(text, params.drop_last());
        let (name, value) = params.last();
        replaced(replaced(before, double_braced(name), value), single_braced(name), value)
    }
}

/// The views of a list of parameters.
pub open spec fn param_views(params: Seq<(&str, &str)>) -> Seq<(Seq<char>, Seq<char>)> {
    params.map_values(|p: (&str, &str)| (p.0@, p.1@))
}

/// Fills the parameters into `text`.
pub fn substitute(text: String, params: &[(&str, &str)]) -> (r: String)
    ensures
        r@ == substituted(text@, param_views(params@)),
{
    let ghost start = text@;
    let ghost all = param_views(params@);
    let mut result = text;
    let mut i: usize = 0;
    assert(all.take(0) =~= Seq::<(Seq<char>, Seq<char>)>::empty());
    while i < params.len()
        invariant
            i <= params.len(),
            all == param_views(params@),
            result@ == substituted(start, all.take(i as int)),
        decreases params.len() - i,
    {
        let name = params[i].0;
        let value = params[i].1;
        proof {
            let next = all.take(i + 1);
            assert(next.drop_last() =~= all.take(i as int));
            assert(next.last() == (name@, value@));
        }
        let mut double = String::from_str("{{");
        double.append(name);
        double.append("}}");
        let mut single = String::from_str("{");
        single.append(name);
        single.append("}");
        proof {
            reveal_strlit("{{");
            reveal_strlit("{");
        }
        let once = replace_all(result.as_str(), double.as_str(), value);
        result = replace_all(once.as_str(), single.as_str(), value);
        i = i + 1;
    }
    assert(all.take(params.len() as int) =~= all);
    result
}

/// Messages by key, in the language in use.
pub struct MessageService {
    current_language: Language,
    custom_store: CustomMessageStore,
}

impl MessageService {
    /// The language in use.
    pub closed spec fn language(self) -> Language {
        self.current_language
    }

    /// The messages the server has put in place of the standard ones.
    pub closed spec fn custom_messages(self, language: Language) -> Map<Seq<char>, Seq<char>> {
        self.custom_store.of(language)
    }

    /// Whether the server has a message of its own under `key`.
    pub open spec fn has_custom(self, key: Seq<char>, language: Language) -> bool {
        self.custom_messages(language).contains_key(key)
    }

    /// The message under `key`: the server's own where it has one; a key
    /// without one stands for itself.
    pub open spec fn message(self, key: Seq<char>, language: Language) -> Seq<char> {
        if self.has_custom(key, language) {
            self.custom_messages(language)[key]
        } else {
            key
        }
    }

    /// A service in English without custom messages.
    pub fn new() -> (service: MessageService)
        ensures
            service.language() == Language::English,
            forall|language: Language|
                #[trigger] service.custom_messages(language) == Map::<
                    Seq<char>,
                    Seq<char>,
                >::empty(),
    {
        MessageService { current_language: Language::English, custom_store: CustomMessageStore::new() }
    }

    pub fn set_language(&mut self, language: Language)
        ensures
            final(self).language() == language,
            forall|l: Language|
                #[trigger] final(self).custom_messages(l) == old(self).custom_messages(l),
    {
        self.current_language = language;
    }

    pub fn current_language(&self) -> (language: Language)
        ensures
            language == self.language(),
    {
        self.current_language
    }

    /// Puts `message` in place of the standard message under `key`.
    pub fn set_custom_message(&mut self, language: Language, key: &str, message: &str)
        ensures
            final(self).language() == old(self).language(),
            final(self).custom_messages(language) == old(self).custom_messages(language).insert(
                key@,
                message@,
            ),
            forall|other: Language|
                other != language ==> #[trigger] final(self).custom_messages(other) == old(
                    self,
                ).custom_messages(other),
    {
        self.custom_store.set(language, key, message);
    }

    /// Puts the messages of `locales` in place of all custom messages.  A
    /// locale counts for the language whose code it is named with; of two
    /// with one name the later counts; other locales are passed over.
    pub fn install_custom_messages(&mut self, locales: &Vec<LocaleMessages>)
        ensures
            final(self).language() == old(self).language(),
            forall|language: Language|
                #[trigger] final(self).custom_messages(language) == installed(
                    locale_views(locales@),
                    language,
                ),
    {
        let ghost all = locale_views(locales@);
        self.custom_store.clear();
        let mut i: usize = 0;
        assert(all.take(0) =~= Seq::empty());
        while i < locales.len()
            invariant
                i <= locales.len(),
                all == locale_views(locales@),
                self.current_language == old(self).current_language,
                forall|language: Language|
                    #[trigger] self.custom_store.of(language) == installed(
                        all.take(i as int),
                        language,
                    ),
            decreases locales.len() - i,
        {
            let ghost upto = all.take(i + 1);
            proof {
                assert(upto.drop_last() =~= all.take(i as int));
                assert(upto.last() == all[i as int]);
            }
            match Language::from_locale(locales[i].locale.as_str()) {
                Some(language) => {
                    let entries = &locales[i].entries;
                    let ghost pairs = entry_views(entries@);
                    let ghost before = self.custom_store;
                    self.custom_store.clear_language(language);
                    let mut j: usize = 0;
                    assert(pairs.take(0) =~= Seq::empty());
                    while j < entries.len()
                        invariant
                            j <= entries.len(),
                            pairs == entry_views(entries@),
                            self.current_language == old(self).current_language,
                            self.custom_store.of(language) == as_map(pairs.take(j as int)),
                            forall|other: Language|
                                other != language ==> #[trigger] self.custom_store.of(other)
                                    == before.of(other),
                        decreases entries.len() - j,
                    {
                        proof {
                            let next = pairs.take(j + 1);
                            assert(next.drop_last() =~= pairs.take(j as int));
                            assert(next.last() == (entries@[j as int].0@, entries@[j as int].1@));
                        }
                        self.custom_store.set(
                            language,
                            entries[j].0.as_str(),
                            entries[j].1.as_str(),
                        );
                        j = j + 1;
                    }
                    proof {
                        assert(pairs.take(entries.len() as int) =~= pairs);
                        lemma_locales_differ();
                        assert forall|l: Language| #[trigger]
                            self.custom_store.of(l) == installed(upto, l) by {
                            if l != language {
                                assert(before.of(l) == installed(all.take(i as int), l));
                            }
                        }
                    }
                },
                None => {
                    proof {
                        assert forall|l: Language| #[trigger]
                            self.custom_store.of(l) == installed(upto, l) by {
                            assert(self.custom_store.of(l) == installed(all.take(i as int), l));
                        }
                    }
                },
            }
            i = i + 1;
        }
        assert(all.take(locales.len() as int) =~= all);
    }

    /// Reads the files of custom messages and puts what they hold in place
    /// of all custom messages.  If one of them cannot be read nothing
    /// changes.
    pub fn load_custom_messages(&mut self, files: &Vec<MessageFile>) -> (r: Result<(), String>)
        ensures
            final(self).language() == old(self).language(),
            match r {
                Ok(_) => all_readable(files@) && forall|language: Language|
                    #[trigger] final(self).custom_messages(language) == installed(
                        read_files(files@),
                        language,
                    ),
                Err(_) => !all_readable(files@) && forall|language: Language|
                    #[trigger] final(self).custom_messages(language) == old(
                        self,
                    ).custom_messages(language),
            },
    {
        let mut locales: Vec<LocaleMessages> = Vec::new();
        let mut i: usize = 0;
        while i < files.len()
            invariant
                i <= files.len(),
                locales@.len() == i,
                forall|k: int|
                    0 <= k < i ==> json_messages((#[trigger] files@[k]).content@) == Some(
                        entry_views(locales@[k].entries@),
                    ) && locales@[k].locale@ == files@[k].locale@,
            decreases files.len() - i,
        {
            match parse_messages(files[i].content.as_str()) {
                Ok(entries) => {
                    locales.push(LocaleMessages { locale: files[i].locale.clone(), entries });
                },
                Err(reason) => {
                    assert(json_messages(files@[i as int].content@) is None);
                    return Err(reason);
                },
            }
            i = i + 1;
        }
        assert(locale_views(locales@) =~= read_files(files@));
        self.install_custom_messages(&locales);
        Ok(())
    }

    /// Removes every custom message.
    pub fn clear_custom_messages(&mut self)
        ensures
            final(self).language() == old(self).language(),
            forall|language: Language|
                #[trigger] final(self).custom_messages(language) == Map::<
                    Seq<char>,
                    Seq<char>,
                >::empty(),
    {
        self.custom_store.clear();
    }

    /// The message under `key` in the language in use.
    pub fn get(&self, key: &str) -> (r: String)
        ensures
            r@ == self.message(key@, self.language()),
    {
        self.get_with_language(key, self.current_language)
    }

    /// The message under `key` in `language`.
    pub fn get_with_language(&self, key: &str, language: Language) -> (r: String)
        ensures
            r@ == self.message(key@, language),
    {
        match self.custom_store.get(key, language) {
            Some(message) => message,
            None => String::from_str(key),
        }
    }

    /// The message under `key` in the language in use, with the parameters
    /// filled in.
    pub fn get_with_params(&self, key: &str, params: &[(&str, &str)]) -> (r: String)
        ensures
            r@ == substituted(self.message(key@, self.language()), param_views(params@)),
    {
        self.get_with_params_and_language(key, params, self.current_language)
    }

    /// The message under `key` in `language`, with the parameters filled in.
    pub fn get_with_params_and_language(
        &self,
        key: &str,
        params: &[(&str, &str)],
        language: Language,
    ) -> (r: String)
        ensures
            r@ == substituted(self.message(key@, language), param_views(params@)),
    {
        substitute(self.get_with_language(key, language), params)
    }

    /// Whether the server has a message of its own under `key`.
    pub fn has_custom_message(&self, key: &str, language: Language) -> (r: bool)
        ensures
            r == self.has_custom(key@, language),
    {
        self.custom_store.get(key, language).is_some()
    }

    /// The languages messages are available in.
    pub fn available_languages() -> (v: Vec<Language>)
        ensures
            v@ == seq![Language::English, Language::Japanese],
    {
        let mut v: Vec<Language> = Vec::new();
        v.push(Language::English);
        v.push(Language::Japanese);
        assert(v@ =~= seq![Language::English, Language::Japanese]);
        v
    }
}

impl Default for MessageService {
    fn default() -> (service: MessageService)
        ensures
            service.language() == Language::English,
            forall|language: Language|
                #[trigger] service.custom_messages(language) == Map::<
                    Seq<char>,
                    Seq<char>,
                >::empty(),
    {
        MessageService::new()
    }
}

/// The message under `key` in the language `service` uses.
pub fn get(service: &MessageService, key: &str) -> (r: String)
    ensures
        r@ == service.message(key@, service.language()),
{
    service.get(key)
}

/// The message under `key` in `language`.
pub fn get_with_language(service: &MessageService, key: &str, language: Language) -> (r: String)
    ensures
        r@ == service.message(key@, language),
{
    service.get_with_language(key, language)
}

/// The message under `key` with the parameters filled in.
pub fn get_with_params(service: &MessageService, key: &str, params: &[(&str, &str)]) -> (r: String)
    ensures
        r@ == substituted(service.message(key@, service.language()), param_views(params@)),
{
    service.get_with_params(key, params)
}

/// The message under `key` in `language` with the parameters filled in.
pub fn get_with_params_and_language(
    service: &MessageService,
    key: &str,
    params: &[(&str, &str)],
    language: Language,
) -> (r: String)
    ensures
        r@ == substituted(service.message(key@, language), param_views(params@)),
{
    service.get_with_params_and_language(key, params, language)
}

/// Makes `language` the language `service` uses.
pub fn set_global_language(service: &mut MessageService, language: Language)
    ensures
        final(service).language() == language,
        forall|l: Language|
            #[trigger] final(service).custom_messages(l) == old(service).custom_messages(l),
{
    service.set_language(language);
}

/// Removes every custom message of `service`.
pub fn clear_custom_messages(service: &mut MessageService)
    ensures
        final(service).language() == old(service).language(),
        forall|language: Language|
            #[trigger] final(service).custom_messages(language) == Map::<
                Seq<char>,
                Seq<char>,
            >::empty(),
{
    service.clear_custom_messages();
}

/// Whether `service` holds a custom message under `key`.
pub fn has_custom_message(service: &MessageService, key: &str, language: Language) -> (r: bool)
    ensures
        r == service.has_custom(key@, language),
{
    service.has_custom_message(key, language)
}

} // verus!

//! The translation tables: one JSON object of strings per locale file,
//! looked up by locale and key.
use vstd::prelude::*;
use crate::text::{has_suffix, strip_suffix, trim_end_matches, trimmed_end};

verus! {

#[verifier::external_type_specification]
#[verifier::external_body]
pub struct ExJsonError(serde_json::Error);

/// The ending of a locale file's name.
pub const LOCALE_FILE_SUFFIX: &'static str = ".json";

/// The ending of a `LANG` value that names a UTF-8 locale.
pub const UTF8_LANG_SUFFIX: &'static str = ".UTF-8";

/// The locale the wizard falls back to.
pub const FALLBACK_LOCALE: &'static str = "en_US";

/// The object of strings that `serde_json::from_str` reads from a text,
/// as a map from key to value; `None` when the text is not such an object.
pub uninterp spec fn json_string_table(text: Seq<char>) -> Option<Map<Seq<char>, Seq<char>>>;

/// No key occurs twice among the pairs.
pub open spec fn keys_distinct(v: Seq<(String, String)>) -> bool {
    forall|i: int, j: int|
        0 <= i < v.len() && 0 <= j < v.len() && i != j ==> #[trigger] v[i].0@ != #[trigger] v[j].0@
}

/// The map that a list of (key, value) pairs describes.
pub open spec fn table_of(v: Seq<(String, String)>) -> Map<Seq<char>, Seq<char>> {
    Map::new(
        |k: Seq<char>| exists|i: int| 0 <= i < v.len() && #[trigger] v[i].0@ == k,
        |k: Seq<char>| v[choose|i: int| 0 <= i < v.len() && #[trigger] v[i].0@ == k].1@,
    )
}

/// Calls `serde_json::from_str` into a `HashMap<String, String>` and lists
/// its entries. The parse is named; a map holds each key once, so the
/// pairs have distinct keys and describe exactly the parsed object. Their
/// order (the map's) is left unsaid.
#[verifier::external_body]
fn parse_string_table(text: &str) -> (r: Result<Vec<(String, String)>, serde_json::Error>)
    ensures
        r is Ok <==> json_string_table(text@) is Some,
        r matches Ok(v) ==> keys_distinct(v@) && table_of(v@) == json_string_table(text@).unwrap(),
{
    match serde_json::from_str::<std::collections::HashMap<String, String>>(text) {
        Ok(m) => Ok(m.into_iter().collect()),
        Err(e) => Err(e),
    }
}

/// Why the tables could not be loaded.
#[derive(Debug)]
pub enum TranslationError {
    /// The file of this locale is not a JSON object of strings.
    InvalidJson { locale: String },
}

/// The locale a translation file is for: its name without the trailing
/// `.json` endings.
pub open spec fn locale_of_file(file_name: Seq<char>) -> Seq<char> {
    trimmed_end(file_name, LOCALE_FILE_SUFFIX@)
}

/// The locale a translation file is for.
pub fn locale_from_file_name(file_name: &str) -> (r: String)
    ensures
        r@ == locale_of_file(file_name@),
{
    trim_end_matches(file_name, LOCALE_FILE_SUFFIX)
}

/// The locale named by a `LANG` value such as `en_US.UTF-8`: the value
/// without its `.UTF-8` ending; `None` when it has no such ending.
pub fn locale_from_lang(lang: &str) -> (r: Option<String>)
    ensures
        r is Some <==> has_suffix(lang@, UTF8_LANG_SUFFIX@),
        r matches Some(l) ==> l@ + UTF8_LANG_SUFFIX@ == lang@,
{
    strip_suffix(lang, UTF8_LANG_SUFFIX)
}

/// No locale occurs twice.
pub open spec fn locales_distinct(v: Seq<(String, Vec<(String, String)>)>) -> bool {
    forall|i: int, j: int|
        0 <= i < v.len() && 0 <= j < v.len() && i != j ==> #[trigger] v[i].0@ != #[trigger] v[j].0@
}

/// The tables by locale that a list describes.
pub open spec fn tables_of(v: Seq<(String, Vec<(String, String)>)>) -> Map<
    Seq<char>,
    Map<Seq<char>, Seq<char>>,
> {
    Map::new(
        |l: Seq<char>| exists|i: int| 0 <= i < v.len() && #[trigger] v[i].0@ == l,
        |l: Seq<char>| table_of(v[choose|i: int| 0 <= i < v.len() && #[trigger] v[i].0@ == l].1@),
    )
}

proof fn lemma_table_at(v: Seq<(String, String)>, i: int)
    requires
        keys_distinct(v),
        0 <= i < v.len(),
    ensures
        table_of(v).contains_key(v[i].0@),
        table_of(v)[v[i].0@] == v[i].1@,
{
    let k = v[i].0@;
    assert(exists|j: int| 0 <= j < v.len() && #[trigger] v[j].0@ == k);
    let c = choose|j: int| 0 <= j < v.len() && #[trigger] v[j].0@ == k;
    assert(c == i);
}

proof fn lemma_tables_at(v: Seq<(String, Vec<(String, String)>)>, i: int)
    requires
        locales_distinct(v),
        0 <= i < v.len(),
    ensures
        tables_of(v).contains_key(v[i].0@),
        tables_of(v)[v[i].0@] == table_of(v[i].1@),
{
    let l = v[i].0@;
    assert(exists|j: int| 0 <= j < v.len() && #[trigger] v[j].0@ == l);
    let c = choose|j: int| 0 <= j < v.len() && #[trigger] v[j].0@ == l;
    assert(c == i);
}

/// The value of `key` in the table of `locale`, if both exist.
pub open spec fn lookup(
    tables: Map<Seq<char>, Map<Seq<char>, Seq<char>>>,
    locale: Seq<char>,
    key: Seq<char>,
) -> Option<Seq<char>> {
    if tables.contains_key(locale) && tables[locale].contains_key(key) {
        Some(tables[locale][key])
    } else {
        None
    }
}

/// The tables after loading the given (file name, contents) pairs in
/// order, each file's table replacing an earlier one of the same locale;
/// `None` when some file is not a JSON object of strings.
pub open spec fn loaded(files: Seq<(Seq<char>, Seq<char>)>) -> Option<
    Map<Seq<char>, Map<Seq<char>, Seq<char>>>,
>
    decreases files.len(),
{
    if files.len() == 0 {
        Some(Map::empty())
    } else {
        match loaded(files.drop_last()) {
            Some(m) => match json_string_table(files.last().1) {
                Some(t) => Some(m.insert(locale_of_file(files.last().0), t)),
                None => None,
            },
            None => None,
        }
    }
}

/// The files before `i` load, and file `i` is not a JSON object of strings.
pub open spec fn first_bad_file(files: Seq<(Seq<char>, Seq<char>)>, i: int) -> bool {
    &&& 0 <= i < files.len()
    &&& loaded(files.take(i)) is Some
    &&& json_string_table(files[i].1) is None
}

/// The views of a list of (file name, contents) pairs.
pub open spec fn file_texts(v: Seq<(String, String)>) -> Seq<(Seq<char>, Seq<char>)> {
    v.map_values(|p: (String, String)| (p.0@, p.1@))
}

/// The translation tables of the wizard, by locale.
pub struct I18nBackend {
    trs: Vec<(String, Vec<(String, String)>)>,
}

impl View for I18nBackend {
    type V = Map<Seq<char>, Map<Seq<char>, Seq<char>>>;

    closed spec fn view(&self) -> Self::V {
        tables_of(self.trs@)
    }
}

impl I18nBackend {
    /// Each locale has one table, and each table each key once.
    pub closed spec fn wf(&self) -> bool {
        &&& locales_distinct(self.trs@)
        &&& forall|i: int| 0 <= i < self.trs@.len() ==> keys_distinct(#[trigger] self.trs@[i].1@)
    }

    /// No tables.
    pub fn empty() -> (r: I18nBackend)
        ensures
            r.wf(),
            r@ == Map::<Seq<char>, Map<Seq<char>, Seq<char>>>::empty(),
    {
        let r = I18nBackend { trs: Vec::new() };
        assert(r@ =~= Map::<Seq<char>, Map<Seq<char>, Seq<char>>>::empty());
        r
    }

    /// Sets the table of `locale`, replacing the one it had.
    pub fn insert_locale(&mut self, locale: String, table: Vec<(String, String)>)
        requires
            old(self).wf(),
            keys_distinct(table@),
        ensures
            final(self).wf(),
            final(self)@ == old(self)@.insert(locale@, table_of(table@)),
    {
        let ghost old_trs = self.trs@;
        let ghost l = locale@;
        let ghost t = table_of(table@);
        match position_of(&self.trs, &locale) {
            Some(i) => {
                self.trs.set(i, (locale, table));
                proof {
                    let n = self.trs@;
                    assert(n == old_trs.update(i as int, n[i as int]));
                    assert forall|a: int, b: int|
                        0 <= a < n.len() && 0 <= b < n.len() && a != b implies #[trigger] n[a].0@
                        != #[trigger] n[b].0@ by {
                        assert(old_trs[a].0@ == n[a].0@);
                        assert(old_trs[b].0@ == n[b].0@);
                    }
                    assert forall|x: Seq<char>| #[trigger] tables_of(n).contains_key(x) == tables_of(old_trs).insert(l, t).contains_key(x)
                        && (tables_of(n).contains_key(x) ==> tables_of(n)[x] == tables_of(old_trs).insert(l, t)[x]) by {
                        if x == l {
                            lemma_tables_at(n, i as int);
                        } else if tables_of(n).contains_key(x) {
                            let j = choose|j: int| 0 <= j < n.len() && #[trigger] n[j].0@ == x;
                            lemma_tables_at(n, j);
                            lemma_tables_at(old_trs, j);
                        } else if tables_of(old_trs).contains_key(x) {
                            let j = choose|j: int| 0 <= j < old_trs.len() && #[trigger] old_trs[j].0@ == x;
                            assert(n[j].0@ == x);
                        }
                    }
                    assert(tables_of(n) =~= tables_of(old_trs).insert(l, t));
                }
            },
            None => {
                self.trs.push((locale, table));
                proof {
                    let n = self.trs@;
                    let m = old_trs.len() as int;
                    assert forall|a: int, b: int|
                        0 <= a < n.len() && 0 <= b < n.len() && a != b implies #[trigger] n[a].0@
                        != #[trigger] n[b].0@ by {
                        if a < m && b < m {
                            assert(old_trs[a].0@ == n[a].0@);
                            assert(old_trs[b].0@ == n[b].0@);
                        } else if a < m {
                            assert(old_trs[a].0@ != l);
                        } else {
                            assert(old_trs[b].0@ != l);
                        }
                    }
                    assert forall|x: Seq<char>| #[trigger] tables_of(n).contains_key(x) == tables_of(old_trs).insert(l, t).contains_key(x)
                        && (tables_of(n).contains_key(x) ==> tables_of(n)[x] == tables_of(old_trs).insert(l, t)[x]) by {
                        if x == l {
                            lemma_tables_at(n, m);
                        } else if tables_of(n).contains_key(x) {
                            let j = choose|j: int| 0 <= j < n.len() && #[trigger] n[j].0@ == x;
                            assert(j < m);
                            lemma_tables_at(n, j);
                            lemma_tables_at(old_trs, j);
                        } else if tables_of(old_trs).contains_key(x) {
                            let j = choose|j: int| 0 <= j < old_trs.len() && #[trigger] old_trs[j].0@ == x;
                            assert(n[j].0@ == x);
                        }
                    }
                    assert(tables_of(n) =~= tables_of(old_trs).insert(l, t));
                }
            },
        }
    }

    /// Reads one translation file: its table, read as a JSON object of
    /// strings, becomes the table of the locale its name gives. A file that
    /// is not such an object leaves the tables as they were.
    pub fn load_locale_file(&mut self, file_name: &str, contents: &str) -> (r: Result<(), TranslationError>)
        requires
            old(self).wf(),
        ensures
            final(self).wf(),
            r is Ok <==> json_string_table(contents@) is Some,
            r is Ok ==> final(self)@ == old(self)@.insert(
                locale_of_file(file_name@),
                json_string_table(contents@).unwrap(),
            ),
            r matches Err(TranslationError::InvalidJson { locale }) ==> {
                &&& locale@ == locale_of_file(file_name@)
                &&& final(self)@ == old(self)@
            },
    {
        let locale = locale_from_file_name(file_name);
        match parse_string_table(contents) {
            Ok(table) => {
                self.insert_locale(locale, table);
                Ok(())
            },
            Err(_) => Err(TranslationError::InvalidJson { locale }),
        }
    }

    /// The tables of the given (file name, contents) pairs, loaded in order;
    /// the first file that is not a JSON object of strings stops the load.
    pub fn new(locale_files: &Vec<(String, String)>) -> (r: Result<I18nBackend, TranslationError>)
        ensures
            r is Ok <==> loaded(file_texts(locale_files@)) is Some,
            r matches Ok(b) ==> b.wf() && Some(b@) == loaded(file_texts(locale_files@)),
            r matches Err(TranslationError::InvalidJson { locale }) ==> exists|i: int|
                0 <= i < locale_files@.len() && #[trigger] first_bad_file(file_texts(locale_files@), i)
                    && locale@ == locale_of_file(locale_files@[i].0@),
    {
        let mut b = I18nBackend::empty();
        let mut i: usize = 0;
        while i < locale_files.len()
            invariant
                0 <= i <= locale_files@.len(),
                b.wf(),
                loaded(file_texts(locale_files@.take(i as int))) == Some(b@),
            decreases locale_files.len() - i,
        {
            let ghost before = b@;
            let r = b.load_locale_file(&locale_files[i].0, &locale_files[i].1);
            proof {
                let prefix = file_texts(locale_files@.take(i + 1));
                assert(prefix.drop_last() =~= file_texts(locale_files@.take(i as int)));
                assert(prefix.last() == (locale_files@[i as int].0@, locale_files@[i as int].1@));
            }
            match r {
                Ok(()) => {},
                Err(e) => {
                    proof {
                        let all = file_texts(locale_files@);
                        lemma_loaded_stays_failed(all, i + 1);
                        assert(all.take(i as int) =~= file_texts(locale_files@.take(i as int)));
                        assert(all[i as int] == (locale_files@[i as int].0@, locale_files@[i as int].1@));
                        assert(first_bad_file(all, i as int));
                    }
                    return Err(e);
                },
            }
            i = i + 1;
        }
        assert(locale_files@.take(locale_files@.len() as int) =~= locale_files@);
        Ok(b)
    }

    /// The table of a locale and the key found in it.
    pub fn translate(&self, locale: &str, key: &str) -> (r: Option<&str>)
        requires
            self.wf(),
        ensures
            r is Some <==> lookup(self@, locale@, key@) is Some,
            r matches Some(v) ==> Some(v@) == lookup(self@, locale@, key@),
    {
        let l = locale.to_owned();
        let k = key.to_owned();
        let mut i: usize = 0;
        while i < self.trs.len()
            invariant
                self.wf(),
                l@ == locale@,
                k@ == key@,
                0 <= i <= self.trs@.len(),
                forall|j: int| 0 <= j < i ==> #[trigger] self.trs@[j].0@ != l@,
            decreases self.trs.len() - i,
        {
            if self.trs[i].0 == l {
                proof {
                    lemma_tables_at(self.trs@, i as int);
                }
                let table = &self.trs[i].1;
                let mut j: usize = 0;
                while j < table.len()
                    invariant
                        keys_distinct(table@),
                        k@ == key@,
                        l@ == locale@,
                        self@.contains_key(l@),
                        self@[l@] == table_of(table@),
                        0 <= j <= table@.len(),
                        forall|m: int| 0 <= m < j ==> #[trigger] table@[m].0@ != k@,
                    decreases table.len() - j,
                {
                    if table[j].0 == k {
                        proof {
                            lemma_table_at(table@, j as int);
                        }
                        return Some(table[j].1.as_str());
                    }
                    j = j + 1;
                }
                assert(!table_of(table@).contains_key(k@));
                return None;
            }
            i = i + 1;
        }
        assert(!tables_of(self.trs@).contains_key(l@));
        None
    }

    /// The locales that have a table, each once, in the order they were
    /// first loaded.
    pub fn available_locales(&self) -> (r: Vec<&str>)
        requires
            self.wf(),
        ensures
            forall|i: int, j: int|
                0 <= i < r@.len() && 0 <= j < r@.len() && i != j ==> #[trigger] r@[i]@ != #[trigger] r@[j]@,
            forall|l: Seq<char>| self@.contains_key(l) <==> exists|i: int| 0 <= i < r@.len() && #[trigger] r@[i]@ == l,
    {
        let mut r: Vec<&str> = Vec::new();
        let mut i: usize = 0;
        while i < self.trs.len()
            invariant
                self.wf(),
                0 <= i <= self.trs@.len(),
                r@.len() == i,
                forall|j: int| 0 <= j < i ==> #[trigger] r@[j]@ == self.trs@[j].0@,
            decreases self.trs.len() - i,
        {
            r.push(self.trs[i].0.as_str());
            i = i + 1;
        }
        proof {
            assert forall|l: Seq<char>| self@.contains_key(l) <==> exists|k: int| 0 <= k < r@.len() && #[trigger] r@[k]@ == l by {
                if self@.contains_key(l) {
                    let k = choose|k: int| 0 <= k < self.trs@.len() && #[trigger] self.trs@[k].0@ == l;
                    assert(r@[k]@ == l);
                }
                if exists|k: int| 0 <= k < r@.len() && #[trigger] r@[k]@ == l {
                    let k = choose|k: int| 0 <= k < r@.len() && #[trigger] r@[k]@ == l;
                    assert(self.trs@[k].0@ == l);
                }
            }
        }
        r
    }
}

/// Where `locale` stands in the list, if it does.
fn position_of(v: &Vec<(String, Vec<(String, String)>)>, locale: &String) -> (r: Option<usize>)
    ensures
        r matches Some(i) ==> i < v@.len() && v@[i as int].0@ == locale@,
        r is None ==> forall|j: int| 0 <= j < v@.len() ==> #[trigger] v@[j].0@ != locale@,
{
    let mut i: usize = 0;
    while i < v.len()
        invariant
            0 <= i <= v@.len(),
            forall|j: int| 0 <= j < i ==> #[trigger] v@[j].0@ != locale@,
        decreases v.len() - i,
    {
        if v[i].0 == *locale {
            return Some(i);
        }
        i = i + 1;
    }
    None
}

proof fn lemma_loaded_stays_failed(files: Seq<(Seq<char>, Seq<char>)>, n: int)
    requires
        0 <= n <= files.len(),
        loaded(files.take(n)) is None,
    ensures
        loaded(files) is None,
    decreases files.len() - n,
{
    if n < files.len() {
        assert(files.take(n + 1).drop_last() =~= files.take(n));
        lemma_loaded_stays_failed(files, n + 1);
    } else {
        assert(files.take(n) =~= files);
    }
}

/// Reading back a key after loading a locale's table gives the value the
/// table holds; the tables of other locales are untouched.
pub proof fn lookup_after_load(
    tables: Map<Seq<char>, Map<Seq<char>, Seq<char>>>,
    locale: Seq<char>,
    table: Map<Seq<char>, Seq<char>>,
    other_locale: Seq<char>,
    key: Seq<char>,
)
    ensures
        lookup(tables.insert(locale, table), locale, key) == (if table.contains_key(key) {
            Some(table[key])
        } else {
            None
        }),
        other_locale != locale ==> lookup(tables.insert(locale, table), other_locale, key)
            == lookup(tables, other_locale, key),
{
}

} // verus!

//! The source enumerator's rules: which desktop entries and search-path
//! binaries become entities, and first-found-wins deduplication by name.
use vstd::prelude::*;

use freedesktop_entry_parser::Entry;

use crate::entries::AppIdentity;
use crate::words::{first_word, first_word_of};

verus! {

/// The final component of a path as `std::path::Path::file_name` gives it;
/// `None` for a path that ends in `..` or has no component.
pub uninterp spec fn path_file_name(p: Seq<char>) -> Option<Seq<char>>;

/// Relies on `std::path::Path::file_name`: the result depends on the text of the
/// path alone. A component of a path given as text is valid text again.
#[verifier::external_body]
pub(crate) fn file_name_of(p: &str) -> (r: Option<String>)
    ensures
        r matches Some(n) ==> Some(n@) == path_file_name(p@),
        r is None ==> path_file_name(p@) is None,
{
    std::path::Path::new(p).file_name().map(|s| s.to_string_lossy().to_string())
}

#[verifier::external_type_specification]
#[verifier::external_body]
pub struct ExDesktopEntry(Entry);

/// The sections of a desktop entry file as `freedesktop_entry_parser::Entry::parse`
/// reads them: by section title, the values of each attribute without a locale
/// parameter, in file order; `None` when the bytes do not parse.
pub uninterp spec fn desktop_parse(bytes: Seq<u8>) -> Option<Map<Seq<char>, Map<Seq<char>, Seq<Seq<char>>>>>;

/// What a parsed entry holds: by section title, the values of each attribute
/// without a locale parameter.
pub uninterp spec fn entry_sections(e: Entry) -> Map<Seq<char>, Map<Seq<char>, Seq<Seq<char>>>>;

/// The values of attribute `key` in a section; none when it is absent.
pub open spec fn attr_values(section: Map<Seq<char>, Seq<Seq<char>>>, key: Seq<char>) -> Seq<Seq<char>> {
    if section.contains_key(key) {
        section[key]
    } else {
        Seq::empty()
    }
}

/// Relies on `freedesktop_entry_parser::Entry::parse`: parses the bytes of a
/// desktop entry file without any I/O; the result depends on the bytes alone.
#[verifier::external_body]
fn parse_desktop_entry(bytes: &[u8]) -> (r: Option<Entry>)
    ensures
        r is Some <==> desktop_parse(bytes@) is Some,
        r matches Some(e) ==> Some(entry_sections(e)) == desktop_parse(bytes@),
{
    Entry::parse(bytes).ok()
}

/// Relies on `freedesktop_entry_parser::Entry::get`: `None` when the entry has
/// no section `section`, else every value of attribute `key` in it (none when
/// the attribute is absent).
#[verifier::external_body]
fn entry_values(e: &Entry, section: &str, key: &str) -> (r: Option<Vec<String>>)
    ensures
        r is None <==> !entry_sections(*e).contains_key(section@),
        r matches Some(v) ==> crate::launch::texts(v@) == attr_values(
            entry_sections(*e)[section@],
            key@,
        ),
{
    e.get(section, key).map(|v| v.to_vec())
}

/// The first value of attribute `key` in section `section` of parsed sections
/// `secs`, if there is one.
pub open spec fn first_value(
    secs: Map<Seq<char>, Map<Seq<char>, Seq<Seq<char>>>>,
    section: Seq<char>,
    key: Seq<char>,
) -> Option<Seq<char>> {
    if secs.contains_key(section) && attr_values(secs[section], key).len() > 0 {
        Some(attr_values(secs[section], key)[0])
    } else {
        None
    }
}

/// The view of an optional string.
pub open spec fn opt_text(o: Option<String>) -> Option<Seq<char>> {
    match o {
        Some(s) => Some(s@),
        None => None,
    }
}

/// The title of the section that holds a desktop entry's attributes.
pub open spec fn entry_section() -> Seq<char> {
    "Desktop Entry"@
}

/// The first values of the attributes that a desktop entry's `Desktop Entry`
/// section holds.
pub struct DesktopFields {
    /// `Name`
    pub name: Option<String>,
    /// `Exec`
    pub command: Option<String>,
    /// `NoDisplay`
    pub no_display: Option<String>,
}

/// The first value of `key` in the `Desktop Entry` section of `e`.
fn first_entry_value(e: &Entry, key: &str) -> (r: Option<String>)
    ensures
        opt_text(r) == first_value(entry_sections(*e), entry_section(), key@),
{
    match entry_values(e, "Desktop Entry", key) {
        Some(v) => if v.len() > 0 {
            Some(v[0].clone())
        } else {
            None
        },
        None => None,
    }
}

/// Parses a desktop entry file and takes the first values of `Name`, `Exec`
/// and `NoDisplay` from its `Desktop Entry` section; `None` when the file does
/// not parse.
pub fn desktop_fields(bytes: &[u8]) -> (r: Option<DesktopFields>)
    ensures
        r is Some <==> desktop_parse(bytes@) is Some,
        r matches Some(f) ==> {
            let secs = desktop_parse(bytes@).unwrap();
            &&& opt_text(f.name) == first_value(secs, entry_section(), "Name"@)
            &&& opt_text(f.command) == first_value(secs, entry_section(), "Exec"@)
            &&& opt_text(f.no_display) == first_value(secs, entry_section(), "NoDisplay"@)
        },
{
    let entry = match parse_desktop_entry(bytes) {
        Some(e) => e,
        None => {
            return None;
        },
    };
    let name = first_entry_value(&entry, "Name");
    let command = first_entry_value(&entry, "Exec");
    let no_display = first_entry_value(&entry, "NoDisplay");
    Some(DesktopFields { name, command, no_display })
}

/// A regular file found in a directory of the search path.
pub struct PathFile {
    /// Its file name.
    pub name: String,
    /// Its permission bits.
    pub mode: u32,
}

/// The simple (base) name of the program that a command starts: the file name
/// of its first word, or the first word itself when that has none.
pub open spec fn simple_program(command: Seq<char>) -> Seq<char> {
    match path_file_name(first_word(command)) {
        Some(n) => n,
        None => first_word(command),
    }
}

/// The entry is marked not to be displayed.
pub open spec fn hidden_entry(f: DesktopFields) -> bool {
    f.no_display matches Some(v) && v@ == "true"@
}

/// A desktop entry gives an entity: it is displayed, has a launch command, and
/// a non-empty name.
pub open spec fn desktop_accepted(f: DesktopFields) -> bool {
    &&& !hidden_entry(f)
    &&& f.command matches Some(c) && c@.len() > 0
    &&& f.name matches Some(n) && n@.len() > 0
}

/// Some entity in `entries` has the name `n`.
pub open spec fn has_name(entries: Seq<AppIdentity>, n: Seq<char>) -> bool {
    exists|i: int| 0 <= i < entries.len() && (#[trigger] entries[i]).name@ == n
}

/// No two entities have the same name.
pub open spec fn names_unique(entries: Seq<AppIdentity>) -> bool {
    forall|i: int, j: int|
        0 <= i < j < entries.len() ==> (#[trigger] entries[i]).name@ != (#[trigger] entries[j]).name@
}

/// The state of one discovery pass, as values.
pub struct DiscoveryModel {
    /// The entities found so far, in order.
    pub entries: Seq<AppIdentity>,
    /// Simple program names that desktop entries launch.
    pub known: Set<Seq<char>>,
}

/// The pass after one desktop entry.
pub open spec fn desktop_step(m: DiscoveryModel, f: DesktopFields) -> DiscoveryModel {
    if !desktop_accepted(f) {
        m
    } else {
        let n = f.name.unwrap();
        let c = f.command.unwrap();
        DiscoveryModel {
            entries: if has_name(m.entries, n@) {
                m.entries
            } else {
                m.entries.push(AppIdentity { name: n, command: c, is_cli_only: false })
            },
            known: m.known.insert(simple_program(c@)),
        }
    }
}

/// A search-path file is an executable program: some execute bit is set and its
/// name has no dot (so it is not hidden either).
pub open spec fn path_file_accepted(p: PathFile) -> bool {
    &&& !p.name@.contains('.')
    &&& p.mode & 0o111u32 != 0
}

/// The pass after one search-path file.
pub open spec fn path_step(m: DiscoveryModel, p: PathFile) -> DiscoveryModel {
    if !path_file_accepted(p) || m.known.contains(p.name@) || has_name(m.entries, p.name@) {
        m
    } else {
        DiscoveryModel {
            entries: m.entries.push(AppIdentity { name: p.name, command: p.name, is_cli_only: true }),
            known: m.known,
        }
    }
}

/// Text `pat` occurs in `s`.
pub open spec fn contains_text(s: Seq<char>, pat: Seq<char>) -> bool {
    exists|i: int| 0 <= i && i + pat.len() <= s.len() && #[trigger] s.subrange(i, i + pat.len()) == pat
}

/// A search-path directory is scanned unless it lies under `sbin`, `games` or
/// `lib` path segments.
pub open spec fn search_dir_allowed(dir: Seq<char>) -> bool {
    !contains_text(dir, "/sbin"@) && !contains_text(dir, "/games"@) && !contains_text(dir, "/lib"@)
}

/// Whether `pat` occurs in `s`.
pub fn contains_text_exec(s: &str, pat: &str) -> (r: bool)
    ensures
        r == contains_text(s@, pat@),
{
    let n = s.unicode_len();
    let m = pat.unicode_len();
    if m > n {
        return false;
    }
    let mut i: usize = 0;
    while i <= n - m
        invariant
            n == s@.len(),
            m == pat@.len(),
            m <= n,
            i <= n - m + 1,
            forall|j: int| 0 <= j < i ==> #[trigger] s@.subrange(j, j + m) != pat@,
        decreases n - m + 1 - i,
    {
        let mut k: usize = 0;
        while k < m && s.get_char(i + k) == pat.get_char(k)
            invariant
                n == s@.len(),
                m == pat@.len(),
                i + m <= n,
                k <= m,
                forall|t: int| 0 <= t < k ==> s@[i + t] == pat@[t],
            decreases m - k,
        {
            k = k + 1;
        }
        if k == m {
            assert(s@.subrange(i as int, i + m) =~= pat@);
            return true;
        }
        assert(s@.subrange(i as int, i + m)[k as int] != pat@[k as int]);
        i = i + 1;
    }
    false
}

/// Whether the search-path directory `dir` is scanned.
pub fn search_dir_allowed_exec(dir: &str) -> (r: bool)
    ensures
        r == search_dir_allowed(dir@),
{
    !contains_text_exec(dir, "/sbin") && !contains_text_exec(dir, "/games") && !contains_text_exec(
        dir,
        "/lib",
    )
}

/// One discovery pass: desktop entries first, then search-path files; the first
/// entity found under a name wins.
pub struct Discovery {
    entries: Vec<AppIdentity>,
    known: Vec<String>,
}

impl View for Discovery {
    type V = DiscoveryModel;

    closed spec fn view(&self) -> DiscoveryModel {
        DiscoveryModel {
            entries: self.entries@,
            known: self.known@.map_values(|s: String| s@).to_set(),
        }
    }
}

impl Discovery {
    pub closed spec fn wf(&self) -> bool {
        names_unique(self.entries@)
    }

    /// A pass that has found nothing yet.
    pub fn new() -> (d: Discovery)
        ensures
            d.wf(),
            d@.entries.len() == 0,
            d@.known.is_empty(),
    {
        let d = Discovery { entries: Vec::new(), known: Vec::new() };
        assert(d@.known =~= Set::<Seq<char>>::empty());
        d
    }

    fn has_entry(&self, name: &String) -> (r: bool)
        ensures
            r == has_name(self.entries@, name@),
    {
        let mut i: usize = 0;
        while i < self.entries.len()
            invariant
                i <= self.entries@.len(),
                forall|j: int| 0 <= j < i ==> (#[trigger] self.entries@[j]).name@ != name@,
            decreases self.entries@.len() - i,
        {
            if self.entries[i].name == *name {
                return true;
            }
            i = i + 1;
        }
        false
    }

    fn knows(&self, name: &String) -> (r: bool)
        ensures
            r == self@.known.contains(name@),
    {
        let ghost ks = self.known@.map_values(|s: String| s@);
        let mut i: usize = 0;
        while i < self.known.len()
            invariant
                i <= self.known@.len(),
                ks == self.known@.map_values(|s: String| s@),
                forall|j: int| 0 <= j < i ==> ks[j] != name@,
            decreases self.known@.len() - i,
        {
            if self.known[i] == *name {
                assert(ks[i as int] == name@);
                assert(ks.contains(name@));
                return true;
            }
            i = i + 1;
        }
        proof {
            if ks.to_set().contains(name@) {
                assert(ks.contains(name@));
            }
        }
        false
    }

    /// Takes in one desktop entry.
    pub fn add_desktop(&mut self, f: &DesktopFields)
        requires
            old(self).wf(),
        ensures
            final(self).wf(),
            final(self)@ == desktop_step(old(self)@, *f),
    {
        let hidden = match &f.no_display {
            Some(v) => {
                let t = String::from_str("true");
                *v == t
            },
            None => false,
        };
        if hidden {
            return;
        }
        let name = match &f.name {
            Some(n) => n,
            None => {
                return;
            },
        };
        let command = match &f.command {
            Some(c) => c,
            None => {
                return;
            },
        };
        if command.as_str().is_empty() || name.as_str().is_empty() {
            return;
        }
        let word = first_word_of(command.as_str());
        let simple = match file_name_of(word.as_str()) {
            Some(n) => n,
            None => word,
        };
        let ghost old_known = self.known@.map_values(|s: String| s@);
        self.known.push(simple);
        assert(self.known@.map_values(|s: String| s@) =~= old_known.push(simple@));
        assert(self@.known =~= old(self)@.known.insert(simple_program(command@))) by {
            Seq::lemma_to_set_insert_commutes(old_known, simple@);
            assert(old_known.push(simple@) =~= old_known + seq![simple@]);
        }
        if !self.has_entry(name) {
            let e = AppIdentity { name: name.clone(), command: command.clone(), is_cli_only: false };
            self.entries.push(e);
        }
    }

    /// Takes in one regular file of a scanned search-path directory.
    pub fn add_path_file(&mut self, p: &PathFile)
        requires
            old(self).wf(),
        ensures
            final(self).wf(),
            final(self)@ == path_step(old(self)@, *p),
    {
        if crate::search::contains_char(p.name.as_str(), '.') || p.mode & 0o111u32 == 0 {
            return;
        }
        if self.knows(&p.name) || self.has_entry(&p.name) {
            return;
        }
        let e = AppIdentity { name: p.name.clone(), command: p.name.clone(), is_cli_only: true };
        self.entries.push(e);
    }

    /// The entities found, in discovery order.
    pub fn finish(self) -> (r: Vec<AppIdentity>)
        requires
            self.wf(),
        ensures
            r@ == self@.entries,
            names_unique(r@),
    {
        self.entries
    }
}

/// A search-path binary whose name is the simple program name of an accepted
/// desktop entry adds no entity. When the pass held neither the entry's name
/// nor a search-path entity of that program name, exactly one entity of the
/// pair survives, and it is the one from the desktop entry.
pub proof fn lemma_desktop_entry_wins(m: DiscoveryModel, f: DesktopFields, p: PathFile)
    requires
        names_unique(m.entries),
        desktop_accepted(f),
        p.name@ == simple_program(f.command.unwrap()@),
    ensures
        path_step(desktop_step(m, f), p) == desktop_step(m, f),
        !has_name(m.entries, f.name.unwrap()@) && (forall|i: int|
            0 <= i < m.entries.len() ==> !((#[trigger] m.entries[i]).is_cli_only
                && m.entries[i].name@ == p.name@)) ==> {
            let es = path_step(desktop_step(m, f), p).entries;
            &&& es.len() == m.entries.len() + 1
            &&& es.last() == AppIdentity {
                name: f.name.unwrap(),
                command: f.command.unwrap(),
                is_cli_only: false,
            }
            &&& forall|i: int|
                0 <= i < es.len() - 1 ==> !((#[trigger] es[i]).name@ == f.name.unwrap()@ || (
                es[i].is_cli_only && es[i].name@ == p.name@))
        },
{
    assert(desktop_step(m, f).known.contains(p.name@));
    if !has_name(m.entries, f.name.unwrap()@) {
        let es = desktop_step(m, f).entries;
        assert forall|i: int| 0 <= i < es.len() - 1 implies (#[trigger] es[i]).name@
            != f.name.unwrap()@ by {
            assert(es[i] == m.entries[i]);
        }
    }
}

} // verus!

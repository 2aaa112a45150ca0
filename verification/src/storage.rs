//! A storage.

use vstd::prelude::*;
use vstd::string::*;

verus! {

/// A storage: where a persistent resource is kept.
///
/// Native applications keep resources in files; WebAssembly applications keep
/// them in the browser's local or session storage under a key.
#[derive(Clone, Debug, PartialEq, Eq)]
pub enum Storage {
    Filesystem { path: String },
    LocalStorage { key: String },
    SessionStorage { key: String },
}

/// The mathematical content of a [`Storage`].
pub enum StorageView {
    Filesystem(Seq<char>),
    LocalStorage(Seq<char>),
    SessionStorage(Seq<char>),
}

impl View for Storage {
    type V = StorageView;

    open spec fn view(&self) -> StorageView {
        match self {
            Storage::Filesystem { path } => StorageView::Filesystem(path@),
            Storage::LocalStorage { key } => StorageView::LocalStorage(key@),
            Storage::SessionStorage { key } => StorageView::SessionStorage(key@),
        }
    }
}

/// The first component of a browser path that selects local storage.
pub open spec fn local_area() -> Seq<char> {
    seq!['l', 'o', 'c', 'a', 'l']
}

/// The first component of a browser path that selects session storage.
pub open spec fn session_area() -> Seq<char> {
    seq!['s', 'e', 's', 's', 'i', 'o', 'n']
}

/// Whether the text starts with a `.` component: a `.` that a separator or
/// the end of the text follows.
pub open spec fn starts_with_current_dir(text: Seq<char>) -> bool {
    text.len() > 0 && text[0] == '.' && (text.len() == 1 || text[1] == '/')
}

/// Whether the text ends with a `.` component: a `.` that a separator or the
/// start of the text precedes.
pub open spec fn ends_with_current_dir(text: Seq<char>) -> bool {
    text.len() > 0 && text.last() == '.' && (text.len() == 1 || text[text.len() - 2] == '/')
}

/// The text without the separators (`/`) and `.` components it starts with.
pub open spec fn trim_start_components(text: Seq<char>) -> Seq<char>
    decreases text.len(),
{
    if text.len() > 0 && (text[0] == '/' || starts_with_current_dir(text)) {
        trim_start_components(text.drop_first())
    } else {
        text
    }
}

/// The text without the separators (`/`) and `.` components it ends with.
pub open spec fn trim_end_components(text: Seq<char>) -> Seq<char>
    decreases text.len(),
{
    if text.len() > 0 && (text.last() == '/' || ends_with_current_dir(text)) {
        trim_end_components(text.drop_last())
    } else {
        text
    }
}

/// The key that a relative browser path gives in `area`: the path must start
/// with the component `area`; the key is what follows it, without the
/// separators and `.` components around it.
pub open spec fn key_in_area(relative: Seq<char>, area: Seq<char>) -> Option<Seq<char>> {
    if relative.len() >= area.len() && relative.take(area.len() as int) == area && (relative.len()
        == area.len() || relative[area.len() as int] == '/') {
        Some(trim_end_components(trim_start_components(relative.skip(area.len() as int))))
    } else {
        None
    }
}

/// The browser storage that a path selects: `/local/<key>` selects local
/// storage and `/session/<key>` session storage (the leading separator is
/// optional); any other path selects none. Like paths of the filesystem,
/// separators and `.` components that follow a leading separator are
/// skipped.
pub open spec fn browser_storage(path: Seq<char>) -> Option<StorageView> {
    let relative = if path.len() > 0 && path[0] == '/' {
        trim_start_components(path)
    } else {
        path
    };
    match key_in_area(relative, local_area()) {
        Some(key) => Some(StorageView::LocalStorage(key)),
        None => match key_in_area(relative, session_area()) {
            Some(key) => Some(StorageView::SessionStorage(key)),
            None => None,
        },
    }
}

/// How a storage is shown: a file by its path, a browser storage by the path
/// that selects it (`/local/<key>` or `/session/<key>`).
pub open spec fn shown(storage: StorageView) -> Seq<char> {
    match storage {
        StorageView::Filesystem(path) => path,
        StorageView::LocalStorage(key) => seq!['/'] + local_area() + seq!['/'] + key,
        StorageView::SessionStorage(key) => seq!['/'] + session_area() + seq!['/'] + key,
    }
}

/// Whether `text[i..]` starts with a separator or a `.` component.
fn trims_at(text: &str, i: usize) -> (r: bool)
    requires
        i < text@.len(),
    ensures
        r == (text@.skip(i as int)[0] == '/' || starts_with_current_dir(text@.skip(i as int))),
{
    let n: usize = text.unicode_len();
    let c = text.get_char(i);
    c == '/' || (c == '.' && (i + 1 == n || text.get_char(i + 1) == '/'))
}

/// Whether `text[from..j]` ends with a separator or a `.` component.
fn trims_before(text: &str, from: usize, j: usize) -> (r: bool)
    requires
        from < j <= text@.len(),
    ensures
        r == ({
            let part = text@.subrange(from as int, j as int);
            part.last() == '/' || ends_with_current_dir(part)
        }),
{
    let c = text.get_char(j - 1);
    c == '/' || (c == '.' && (j - 1 == from || text.get_char(j - 2) == '/'))
}

/// Index of the first character of `text` at or after `from` that starts
/// neither a separator nor a `.` component.
fn trim_start_index(text: &str, from: usize) -> (i: usize)
    requires
        from <= text@.len(),
    ensures
        from <= i <= text@.len(),
        trim_start_components(text@.skip(from as int)) == text@.skip(i as int),
{
    let n: usize = text.unicode_len();
    let mut i: usize = from;
    while i < n && trims_at(text, i)
        invariant
            from <= i <= n,
            n == text@.len(),
            trim_start_components(text@.skip(from as int)) == trim_start_components(
                text@.skip(i as int),
            ),
        decreases n - i,
    {
        assert(text@.skip(i as int).drop_first() =~= text@.skip(i + 1));
        i = i + 1;
    }
    i
}

/// Index just past the last character of `text[from..to]` that ends neither a
/// separator nor a `.` component.
fn trim_end_index(text: &str, from: usize, to: usize) -> (j: usize)
    requires
        from <= to <= text@.len(),
    ensures
        from <= j <= to,
        trim_end_components(text@.subrange(from as int, to as int)) == text@.subrange(
            from as int,
            j as int,
        ),
{
    let mut j: usize = to;
    while j > from && trims_before(text, from, j)
        invariant
            from <= j <= to <= text@.len(),
            trim_end_components(text@.subrange(from as int, to as int)) == trim_end_components(
                text@.subrange(from as int, j as int),
            ),
        decreases j,
    {
        assert(text@.subrange(from as int, j as int).drop_last() =~= text@.subrange(
            from as int,
            j - 1,
        ));
        j = j - 1;
    }
    j
}

/// Whether `text[from..]` starts with the component `area`.
fn starts_with_component(text: &str, from: usize, area: &str) -> (r: bool)
    requires
        from <= text@.len(),
    ensures
        r == {
            let relative = text@.skip(from as int);
            relative.len() >= area@.len() && relative.take(area@.len() as int) == area@ && (
            relative.len() == area@.len() || relative[area@.len() as int] == '/')
        },
{
    let n: usize = text.unicode_len();
    let m: usize = area.unicode_len();
    let ghost relative = text@.skip(from as int);
    if n - from < m {
        return false;
    }
    let mut k: usize = 0;
    while k < m
        invariant
            0 <= k <= m,
            m == area@.len(),
            n == text@.len(),
            from + m <= n,
            relative == text@.skip(from as int),
            forall|t: int| 0 <= t < k ==> relative[t] == area@[t],
        decreases m - k,
    {
        if text.get_char(from + k) != area.get_char(k) {
            assert(relative.take(m as int)[k as int] != area@[k as int]);
            return false;
        }
        k = k + 1;
    }
    assert(relative.take(m as int) =~= area@);
    n - from == m || text.get_char(from + m) == '/'
}

/// The key of `text[from..]` in `area`, if it starts with that component.
fn key_after_component(text: &str, from: usize, area: &str) -> (r: Option<String>)
    requires
        from <= text@.len(),
    ensures
        match key_in_area(text@.skip(from as int), area@) {
            Some(key) => r matches Some(k) && k@ == key,
            None => r is None,
        },
{
    if !starts_with_component(text, from, area) {
        return None;
    }
    let m: usize = area.unicode_len();
    let n: usize = text.unicode_len();
    assert(text@.skip(from as int).len() == text@.len() - from);
    let start: usize = trim_start_index(text, from + m);
    let end: usize = trim_end_index(text, start, n);
    let key = text.substring_char(start, end).to_owned();
    proof {
        let relative = text@.skip(from as int);
        assert(relative.skip(m as int) =~= text@.skip(from + m));
        assert(text@.skip(start as int) =~= text@.subrange(start as int, text@.len() as int));
    }
    Some(key)
}

impl Storage {
    /// Shows the storage as its path.
    pub fn to_string(&self) -> (r: String)
        ensures
            r@ == shown(self@),
    {
        match self {
            Storage::Filesystem { path } => path.clone(),
            Storage::LocalStorage { key } => {
                let prefix = String::from_str("/local/");
                proof {
                    reveal_strlit("/local/");
                }
                let r = prefix.concat(key.as_str());
                assert(r@ =~= shown(self@));
                r
            },
            Storage::SessionStorage { key } => {
                let prefix = String::from_str("/session/");
                proof {
                    reveal_strlit("/session/");
                }
                let r = prefix.concat(key.as_str());
                assert(r@ =~= shown(self@));
                r
            },
        }
    }

    /// Selects the browser storage for a path: `/local/<key>` selects local
    /// storage and `/session/<key>` session storage; any other path selects
    /// none.
    pub fn from_browser_path(path: &str) -> (r: Option<Storage>)
        ensures
            match browser_storage(path@) {
                Some(storage) => r matches Some(s) && s@ == storage,
                None => r is None,
            },
    {
        let start: usize = if path.unicode_len() > 0 && path.get_char(0) == '/' {
            trim_start_index(path, 0)
        } else {
            0
        };
        assert(path@.skip(0) =~= path@);
        let local = "local";
        let session = "session";
        proof {
            reveal_strlit("local");
            reveal_strlit("session");
            assert(local@ =~= local_area());
            assert(session@ =~= session_area());
        }
        match key_after_component(path, start, local) {
            Some(key) => Some(Storage::LocalStorage { key }),
            None => match key_after_component(path, start, session) {
                Some(key) => Some(Storage::SessionStorage { key }),
                None => None,
            },
        }
    }
}

/// Browser path round trip: the path that shows a browser storage selects
/// that same storage again, for keys that do not start or end with a
/// separator or a `.` component.
pub proof fn law_browser_path_round_trip(storage: StorageView)
    requires
        storage is LocalStorage || storage is SessionStorage,
        ({
            let key = match storage {
                StorageView::LocalStorage(key) => key,
                StorageView::SessionStorage(key) => key,
                StorageView::Filesystem(path) => path,
            };
            trim_start_components(key) == key && trim_end_components(key) == key
        }),
    ensures
        browser_storage(shown(storage)) == Some(storage),
{
    let (area, key) = match storage {
        StorageView::LocalStorage(key) => (local_area(), key),
        StorageView::SessionStorage(key) => (session_area(), key),
        StorageView::Filesystem(path) => (local_area(), path),
    };
    let path = shown(storage);
    let relative = area + seq!['/'] + key;
    assert(path.drop_first() =~= relative);
    assert(trim_start_components(path) == trim_start_components(relative));
    assert(relative[0] != '/' && relative[0] != '.');
    assert(trim_start_components(relative) == relative);
    assert(relative.take(area.len() as int) =~= area);
    assert(relative[area.len() as int] == '/');
    let rest = relative.skip(area.len() as int);
    assert(rest =~= seq!['/'] + key);
    assert(rest.drop_first() =~= key);
    assert(trim_start_components(rest) == key);
    if storage is SessionStorage {
        assert(relative.take(5)[0] == 's');
        assert(local_area()[0] == 'l');
        assert(relative.take(local_area().len() as int) != local_area());
        assert(key_in_area(relative, local_area()) is None);
    }
}


/// Trimming never makes a text longer.
proof fn lemma_trim_start_shortens(text: Seq<char>)
    ensures
        trim_start_components(text).len() <= text.len(),
    decreases text.len(),
{
    if text.len() > 0 && (text[0] == '/' || starts_with_current_dir(text)) {
        lemma_trim_start_shortens(text.drop_first());
    }
}

/// The leading separator is optional: a path that starts with neither a
/// separator nor a `.` component selects the same browser storage, if any,
/// as the same path after a separator.
pub proof fn law_leading_separator_is_optional(path: Seq<char>)
    requires
        trim_start_components(path) == path,
    ensures
        browser_storage(seq!['/'] + path) == browser_storage(path),
{
    let rooted = seq!['/'] + path;
    assert(rooted.drop_first() =~= path);
    assert(trim_start_components(rooted) == path);
    if path.len() > 0 && path[0] == '/' {
        lemma_trim_start_shortens(path.drop_first());
    }
}

/// Local and session storage are selected alike: what follows the area name
/// gives local storage a key exactly when it gives session storage the same
/// key.
pub proof fn law_areas_select_alike(rest: Seq<char>, key: Seq<char>)
    ensures
        browser_storage(local_area() + rest) == Some(StorageView::LocalStorage(key))
            <==> browser_storage(session_area() + rest) == Some(
            StorageView::SessionStorage(key),
        ),
{
    let local = local_area() + rest;
    let session = session_area() + rest;
    assert(local[0] == 'l');
    assert(session[0] == 's');
    assert(trim_start_components(local) == local);
    assert(trim_start_components(session) == session);
    assert(local.take(5) =~= local_area());
    assert(session.take(7) =~= session_area());
    assert(local.skip(5) =~= rest);
    assert(session.skip(7) =~= rest);
    if rest.len() > 0 {
        assert(local[5] == rest[0]);
        assert(session[7] == rest[0]);
    }
    assert(session.take(5)[0] == 's');
    assert(session.take(5) != local_area());
}

} // verus!

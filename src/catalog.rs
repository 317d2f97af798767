use vstd::prelude::*;
use vstd::string::*;

verus! {

/// One regular file met while walking the media directory, in walk order.
#[derive(Debug)]
pub struct MediaFile {
    /// The file's full path; it becomes the catalog entry.
    pub path: String,
    /// The last component of the path, whose extension is tested.
    pub file_name: String,
    /// Whether the media engine could open the file.
    pub readable: bool,
}

/// One catalog entry: a track id and the path of its file.
#[derive(Debug)]
pub struct MediaItem {
    pub id: u64,
    pub path: String,
}

/// The immutable mapping from track id to file path, in id order.
#[derive(Debug)]
pub struct MediaCatalog {
    items: Vec<MediaItem>,
}

/// Describes the files that are recognized as media files.
#[derive(Debug)]
pub struct ParseMediaConfig {
    extensions: Vec<String>,
}

/// `i` is the position of the dot that starts the extension of `name`: the
/// last dot, with at least one character before it.
pub open spec fn is_extension_dot(name: Seq<char>, i: int) -> bool {
    &&& 0 < i < name.len()
    &&& name[i] == '.'
    &&& forall|j: int| i < j < name.len() ==> name[j] != '.'
}

/// The extension of a file name, as a path library reports it: what follows
/// the last dot, when that dot is not the name's first character.
pub open spec fn extension_of(name: Seq<char>) -> Option<Seq<char>> {
    if exists|i: int| is_extension_dot(name, i) {
        let i = choose|i: int| is_extension_dot(name, i);
        Some(name.subrange(i + 1, name.len() as int))
    } else {
        None
    }
}

/// A file name whose extension, compared exactly, is one of `extensions`.
pub open spec fn has_allowed_extension(name: Seq<char>, extensions: Seq<Seq<char>>) -> bool {
    match extension_of(name) {
        Some(ext) => extensions.contains(ext),
        None => false,
    }
}

impl MediaFile {
    /// Whether the file becomes a catalog entry: the engine can open it and
    /// its extension is allowed.
    pub open spec fn is_media(&self, extensions: Seq<Seq<char>>) -> bool {
        self.readable && has_allowed_extension(self.file_name@, extensions)
    }
}

/// The paths of the files in `files` that become catalog entries, in order.
pub open spec fn accepted_paths(files: Seq<MediaFile>, extensions: Seq<Seq<char>>) -> Seq<
    Seq<char>,
>
    decreases files.len(),
{
    if files.len() == 0 {
        Seq::empty()
    } else {
        let earlier = accepted_paths(files.drop_last(), extensions);
        if files.last().is_media(extensions) {
            earlier.push(files.last().path@)
        } else {
            earlier
        }
    }
}

/// At most one catalog entry per file: from id `min_id` on, `files.len()`
/// free ids suffice for `parse_media_dir`.
pub proof fn lemma_accepted_paths_len(files: Seq<MediaFile>, extensions: Seq<Seq<char>>)
    ensures
        accepted_paths(files, extensions).len() <= files.len(),
    decreases files.len(),
{
    if files.len() > 0 {
        lemma_accepted_paths_len(files.drop_last(), extensions);
    }
}

/// A name has at most one extension dot.
proof fn lemma_extension_dot_unique(name: Seq<char>, i: int, k: int)
    requires
        is_extension_dot(name, i),
        is_extension_dot(name, k),
    ensures
        i == k,
{
}

/// Whether `name`, from position `start` on, reads exactly `ext`.
fn tail_equals(name: &str, start: usize, ext: &str) -> (r: bool)
    requires
        start <= name@.len(),
    ensures
        r == (name@.subrange(start as int, name@.len() as int) == ext@),
{
    let n = name.unicode_len();
    let m = ext.unicode_len();
    if n - start != m {
        proof {
            assert(name@.subrange(start as int, name@.len() as int).len() != ext@.len());
        }
        return false;
    }
    let mut k: usize = 0;
    while k < m
        invariant
            n == name@.len(),
            m == ext@.len(),
            n - start == m,
            start <= n,
            k <= m,
            forall|j: int| 0 <= j < k ==> name@[start + j] == ext@[j],
        decreases m - k,
    {
        if name.get_char(start + k) != ext.get_char(k) {
            proof {
                assert(name@.subrange(start as int, name@.len() as int)[k as int] != ext@[k as int]);
            }
            return false;
        }
        k = k + 1;
    }
    assert(name@.subrange(start as int, name@.len() as int) =~= ext@);
    true
}

/// The position of the extension dot of `name`, if it has an extension.
fn extension_dot(name: &str) -> (r: Option<usize>)
    ensures
        match r {
            Some(i) => is_extension_dot(name@, i as int),
            None => !exists|i: int| is_extension_dot(name@, i),
        },
{
    let n = name.unicode_len();
    let mut i: usize = n;
    // Scan backwards for the last dot.
    while i > 0
        invariant
            n == name@.len(),
            i <= n,
            forall|j: int| i <= j < n ==> name@[j] != '.',
        decreases i,
    {
        if name.get_char(i - 1) == '.' {
            let d = i - 1;
            if d == 0 {
                proof {
                    assert forall|k: int| is_extension_dot(name@, k) implies false by {
                        if k > 0 {
                            assert(name@[d as int] == '.');
                        }
                    }
                }
                return None;
            }
            return Some(d);
        }
        i = i - 1;
    }
    None
}

impl ParseMediaConfig {
    pub closed spec fn extensions(&self) -> Seq<Seq<char>> {
        self.extensions@.map_values(|e: String| e@)
    }

    /// A configuration that accepts the files whose extension is one of
    /// `file_extensions`.
    pub fn new(file_extensions: &Vec<String>) -> (r: Self)
        ensures
            r.extensions() == file_extensions@.map_values(|e: String| e@),
    {
        let mut extensions: Vec<String> = Vec::new();
        let mut k: usize = 0;
        while k < file_extensions.len()
            invariant
                k <= file_extensions@.len(),
                extensions@.len() == k,
                forall|j: int| 0 <= j < k ==> extensions@[j]@ == file_extensions@[j]@,
            decreases file_extensions@.len() - k,
        {
            extensions.push(file_extensions[k].clone());
            k = k + 1;
        }
        assert(extensions@.map_values(|e: String| e@) =~= file_extensions@.map_values(
            |e: String| e@,
        ));
        ParseMediaConfig { extensions }
    }

    /// Whether a file of this name is a media file: its extension is one of
    /// the configured ones, compared exactly.
    pub fn is_media_file_name(&self, file_name: &str) -> (r: bool)
        ensures
            r == has_allowed_extension(file_name@, self.extensions()),
    {
        let n = file_name.unicode_len();
        let dot = extension_dot(file_name);
        match dot {
            None => false,
            Some(d) => {
                let ghost name = file_name@;
                let ghost ext = name.subrange(d + 1, name.len() as int);
                proof {
                    let c = choose|i: int| is_extension_dot(name, i);
                    lemma_extension_dot_unique(name, d as int, c);
                    assert(extension_of(name) == Some(ext));
                }
                let mut k: usize = 0;
                while k < self.extensions.len()
                    invariant
                        k <= self.extensions@.len(),
                        is_extension_dot(name, d as int),
                        name == file_name@,
                        n == name.len(),
                        ext == name.subrange(d + 1, name.len() as int),
                        forall|j: int| 0 <= j < k ==> self.extensions@[j]@ != ext,
                    decreases self.extensions@.len() - k,
                {
                    if tail_equals(file_name, d + 1, self.extensions[k].as_str()) {
                        proof {
                            assert(self.extensions()[k as int] == ext);
                        }
                        return true;
                    }
                    k = k + 1;
                }
                proof {
                    assert forall|j: int| 0 <= j < self.extensions().len() implies self.extensions()[j]
                        != ext by {
                        assert(self.extensions@[j]@ != ext);
                    }
                }
                false
            },
        }
    }
}

/// The catalog that a walk over `files` builds: the accepted files, in walk
/// order, with consecutive ids from `min_id` on.
pub open spec fn catalog_items(
    min_id: u64,
    files: Seq<MediaFile>,
    extensions: Seq<Seq<char>>,
) -> Seq<(u64, Seq<char>)> {
    let paths = accepted_paths(files, extensions);
    Seq::new(paths.len(), |i: int| ((min_id + i) as u64, paths[i]))
}

/// Ids strictly increase along the entries, so no id appears twice.
pub open spec fn ids_increasing(entries: Seq<(u64, Seq<char>)>) -> bool {
    forall|i: int, j: int| 0 <= i < j < entries.len() ==> entries[i].0 < entries[j].0
}

/// The path recorded under `id`, if any.
pub open spec fn path_of(entries: Seq<(u64, Seq<char>)>, id: u64) -> Option<Seq<char>> {
    if exists|i: int| 0 <= i < entries.len() && entries[i].0 == id {
        let i = choose|i: int| 0 <= i < entries.len() && entries[i].0 == id;
        Some(entries[i].1)
    } else {
        None
    }
}

proof fn lemma_accepted_paths_prefix(files: Seq<MediaFile>, extensions: Seq<Seq<char>>, k: int)
    requires
        0 <= k <= files.len(),
    ensures
        accepted_paths(files.take(k), extensions).len() <= accepted_paths(files, extensions).len(),
    decreases files.len(),
{
    if k < files.len() {
        lemma_accepted_paths_prefix(files.drop_last(), extensions, k);
        assert(files.drop_last().take(k) =~= files.take(k));
    } else {
        assert(files.take(k) =~= files);
    }
}

/// The entries of a list of catalog items.
pub open spec fn entries_of(items: Seq<MediaItem>) -> Seq<(u64, Seq<char>)> {
    items.map_values(|it: MediaItem| (it.id, it.path@))
}

impl View for MediaCatalog {
    type V = Seq<(u64, Seq<char>)>;

    closed spec fn view(&self) -> Seq<(u64, Seq<char>)> {
        entries_of(self.items@)
    }
}

impl MediaCatalog {
    pub open spec fn wf(&self) -> bool {
        ids_increasing(self@)
    }

    /// The number of entries.
    pub fn len(&self) -> (r: usize)
        ensures
            r == self@.len(),
    {
        self.items.len()
    }

    /// The entries, in id order.
    pub fn items(&self) -> (r: &Vec<MediaItem>)
        ensures
            entries_of(r@) == self@,
    {
        &self.items
    }

    /// The path of track `id`, if the catalog has it.
    pub fn lookup(&self, id: u64) -> (r: Option<String>)
        requires
            self.wf(),
        ensures
            match r {
                Some(p) => path_of(self@, id) == Some(p@),
                None => path_of(self@, id) is None,
            },
    {
        let mut k: usize = 0;
        while k < self.items.len()
            invariant
                k <= self@.len(),
                self.wf(),
                self@.len() == self.items@.len(),
                forall|j: int| 0 <= j < k ==> self@[j].0 != id,
            decreases self.items@.len() - k,
        {
            if self.items[k].id == id {
                proof {
                    assert(self@[k as int] == (self.items@[k as int].id, self.items@[k as int].path@));
                    assert(self@[k as int].0 == id);
                    let c = choose|i: int| 0 <= i < self@.len() && self@[i].0 == id;
                    if c != k {
                        assert(self@[c].0 == self@[k as int].0);
                    }
                }
                return Some(self.items[k].path.clone());
            }
            k = k + 1;
        }
        None
    }

    /// An equal catalog, for handing out in a message.
    pub fn copy(&self) -> (r: Self)
        ensures
            r@ == self@,
    {
        let mut items: Vec<MediaItem> = Vec::new();
        let mut k: usize = 0;
        while k < self.items.len()
            invariant
                k <= self.items@.len(),
                items@.len() == k,
                forall|j: int|
                    0 <= j < k ==> items@[j].id == self.items@[j].id && items@[j].path@
                        == self.items@[j].path@,
            decreases self.items@.len() - k,
        {
            items.push(MediaItem { id: self.items[k].id, path: self.items[k].path.clone() });
            k = k + 1;
        }
        let r = MediaCatalog { items };
        assert(r@ =~= self@);
        r
    }
}

/// Builds the catalog from the regular files of the media directory, given
/// in pre-order walk order: each readable file whose extension `config`
/// accepts gets the next id, starting at `min_id`; other files are skipped.
/// Returns the next unused id and the catalog.
pub fn parse_media_dir(min_id: u64, files: &Vec<MediaFile>, config: &ParseMediaConfig) -> (r: (
    u64,
    MediaCatalog,
))
    requires
        min_id + accepted_paths(files@, config.extensions()).len() <= u64::MAX,
    ensures
        r.0 == min_id + accepted_paths(files@, config.extensions()).len(),
        r.1@ == catalog_items(min_id, files@, config.extensions()),
        r.1.wf(),
{
    let ghost exts = config.extensions();
    let mut items: Vec<MediaItem> = Vec::new();
    let mut next_id: u64 = min_id;
    let mut k: usize = 0;
    while k < files.len()
        invariant
            k <= files@.len(),
            exts == config.extensions(),
            min_id + accepted_paths(files@, exts).len() <= u64::MAX,
            next_id == min_id + accepted_paths(files@.take(k as int), exts).len(),
            entries_of(items@) == catalog_items(min_id, files@.take(k as int), exts),
        decreases files@.len() - k,
    {
        let ghost before = files@.take(k as int);
        let ghost after = files@.take(k + 1);
        proof {
            assert(after.drop_last() =~= before);
            lemma_accepted_paths_prefix(files@, exts, k + 1);
        }
        let file = &files[k];
        proof {
            assert(after.last() == files@[k as int]);
        }
        if file.readable && config.is_media_file_name(file.file_name.as_str()) {
            proof {
                assert(accepted_paths(after, exts) == accepted_paths(before, exts).push(file.path@));
            }
            let ghost old_items = items@;
            items.push(MediaItem { id: next_id, path: file.path.clone() });
            proof {
                assert(entries_of(items@) =~= entries_of(old_items).push((next_id, file.path@)));
                assert(catalog_items(min_id, after, exts) =~= catalog_items(min_id, before, exts).push(
                    (next_id, file.path@),
                ));
            }
            next_id = next_id + 1;
        } else {
            proof {
                assert(accepted_paths(after, exts) == accepted_paths(before, exts));
                assert(catalog_items(min_id, after, exts) =~= catalog_items(min_id, before, exts));
            }
        }
        k = k + 1;
    }
    assert(files@.take(k as int) =~= files@);
    (next_id, MediaCatalog { items })
}

} // verus!

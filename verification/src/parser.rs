//! Serialization formats, format detection, and the configuration file
//! handles with their typed read and write operations.

use vstd::prelude::*;

verus! {

use crate::error::{ConrigError, FileSystemError, LangError, RonError, TomlError};
use crate::path::ConfigPathMetadata;

/// The format of a configuration file.
///
/// `conrig` supports toml, json, yaml and ron as possible languages.
#[derive(Debug, Clone, Copy, PartialEq, Eq, Structural)]
#[non_exhaustive]
pub enum FileFormat {
    /// The toml language. Supported by the `toml` crate.
    Toml,
    /// The ron language. Supported by the `ron` crate.
    Ron,
    /// The json language. Supported by the `serde_json` crate.
    Json,
    /// The yaml language. Supported by the `serde_yaml` crate.
    Yaml,
}

impl FileFormat {
    /// Default file format, the first of the fixed priority order:
    /// toml, then json, then yaml, then ron.
    pub const DEFAULT_FILE_FORMAT: FileFormat = FileFormat::Toml;

    /// The canonical file extension of the given language, as a sequence of
    /// characters.
    pub open spec fn spec_extension(self) -> Seq<char> {
        match self {
            FileFormat::Toml => "toml"@,
            FileFormat::Ron => "ron"@,
            FileFormat::Json => "json"@,
            FileFormat::Yaml => "yaml"@,
        }
    }

    /// Get the file extension of the given language.
    ///
    /// Note that for the yaml language, this will return only `yaml`, even
    /// though `yml` files are recognized during detection.
    pub fn extension(&self) -> (r: &'static str)
        ensures
            r@ == self.spec_extension(),
    {
        match self {
            FileFormat::Json => "json",
            FileFormat::Yaml => "yaml",
            FileFormat::Toml => "toml",
            FileFormat::Ron => "ron",
        }
    }

    /// Holds when `e` is the kind of error this format's deserializer
    /// produces.
    pub open spec fn is_decode_error(self, e: LangError) -> bool {
        match self {
            FileFormat::Toml => e matches LangError::TomlError(TomlError::Deserialize(_)),
            FileFormat::Ron => e matches LangError::RonError(RonError::Spanned(_)),
            FileFormat::Json => e is JsonError,
            FileFormat::Yaml => e is YamlError,
        }
    }

    /// Holds when `e` is the kind of error this format's serializer
    /// produces.
    pub open spec fn is_encode_error(self, e: LangError) -> bool {
        match self {
            FileFormat::Toml => e matches LangError::TomlError(TomlError::Serialize(_)),
            FileFormat::Ron => e matches LangError::RonError(RonError::Raw(_)),
            FileFormat::Json => e is JsonError,
            FileFormat::Yaml => e is YamlError,
        }
    }

    /// Deserialize a value from a given `&str`.
    ///
    /// The language backend alone decides whether the text is well formed;
    /// a failure is surfaced verbatim, wrapped in the variant of
    /// [`LangError`] that belongs to this format.
    pub fn read_str<'de, T: serde::Deserialize<'de>>(&self, input: &'de str) -> (r: Result<
        T,
        LangError,
    >)
        ensures
            r matches Err(e) ==> self.is_decode_error(e),
    {
        match self {
            FileFormat::Toml => match toml_from_str::<T>(input) {
                Ok(v) => Ok(v),
                Err(e) => Err(LangError::TomlError(TomlError::Deserialize(e))),
            },
            FileFormat::Ron => match ron_from_str::<T>(input) {
                Ok(v) => Ok(v),
                Err(e) => Err(LangError::RonError(RonError::Spanned(e))),
            },
            FileFormat::Json => match json_from_str::<T>(input) {
                Ok(v) => Ok(v),
                Err(e) => Err(LangError::JsonError(e)),
            },
            FileFormat::Yaml => match yaml_from_str::<T>(input) {
                Ok(v) => Ok(v),
                Err(e) => Err(LangError::YamlError(e)),
            },
        }
    }

    /// Serialize a value into a single in-memory string.
    ///
    /// Buffering the whole document first keeps file replacement atomic at
    /// the call level: a caller never observes a partial document
    /// interleaved with a serialization error.
    pub fn write_str<T: serde::Serialize>(&self, input: &T) -> (r: Result<String, LangError>)
        ensures
            r matches Err(e) ==> self.is_encode_error(e),
    {
        match self {
            FileFormat::Toml => match toml_to_string::<T>(input) {
                Ok(s) => Ok(s),
                Err(e) => Err(LangError::TomlError(TomlError::Serialize(e))),
            },
            FileFormat::Ron => match ron_to_string::<T>(input) {
                Ok(s) => Ok(s),
                Err(e) => Err(LangError::RonError(RonError::Raw(e))),
            },
            FileFormat::Json => match json_to_string::<T>(input) {
                Ok(s) => Ok(s),
                Err(e) => Err(LangError::JsonError(e)),
            },
            FileFormat::Yaml => match yaml_to_string::<T>(input) {
                Ok(s) => Ok(s),
                Err(e) => Err(LangError::YamlError(e)),
            },
        }
    }
}

impl Default for FileFormat {
    /// The process-wide default format; see
    /// [`FileFormat::DEFAULT_FILE_FORMAT`].
    fn default() -> (r: Self)
        ensures
            r == FileFormat::Toml,
    {
        FileFormat::DEFAULT_FILE_FORMAT
    }
}

/// Maps every `String` in a sequence to its character-sequence view.
pub open spec fn seq_views(v: Seq<String>) -> Seq<Seq<char>> {
    v.map_values(|s: String| s@)
}

/// Appending a string appends its view.
pub proof fn lemma_seq_views_push(v: Seq<String>, x: String)
    ensures
        seq_views(v.push(x)) == seq_views(v).push(x@),
{
    assert forall|k: int| 0 <= k < v.len() + 1 implies seq_views(v.push(x))[k] == seq_views(
        v,
    ).push(x@)[k] by {
        if k < v.len() {
            assert(v.push(x)[k] == v[k]);
        } else {
            assert(v.push(x)[k] == x);
        }
    }
    assert(seq_views(v.push(x)) =~= seq_views(v).push(x@));
}

/// Holds when the file name at the end of `p` carries an extension: some
/// `.` stands in the final path component, is not its first character, and
/// has at least one character of that component before it.
///
/// A dot-prefixed file name such as `.conrig` carries no extension.
pub open spec fn spec_has_extension(p: Seq<char>) -> bool {
    exists|i: int|
        1 <= i < p.len() && #[trigger] p[i] == '.' && p[i - 1] != '/' && (forall|k: int|
            i < k < p.len() ==> #[trigger] p[k] != '/')
}

/// Whether the file name at the end of `p` carries an extension.
pub fn has_extension(p: &str) -> (r: bool)
    ensures
        r == spec_has_extension(p@),
{
    let n = p.unicode_len();
    // `start` is the index just after the last `/`, or 0 if there is none.
    let mut start: usize = 0;
    let mut i: usize = 0;
    while i < n
        invariant
            n == p@.len(),
            0 <= start <= i <= n,
            forall|k: int| start <= k < i ==> p@[k] != '/',
            start > 0 ==> start - 1 < i && p@[start - 1] == '/',
        decreases n - i,
    {
        if p.get_char(i) == '/' {
            start = i + 1;
        }
        i = i + 1;
    }
    if start >= n {
        // The final component is empty, so no dot can stand inside it.
        assert(!spec_has_extension(p@)) by {
            if spec_has_extension(p@) {
                let i0 = choose|i0: int|
                    1 <= i0 < p@.len() && #[trigger] p@[i0] == '.' && p@[i0 - 1] != '/' && (forall|
                        k: int,
                    |
                        i0 < k < p@.len() ==> #[trigger] p@[k] != '/');
                if start > 0 {
                    assert(i0 >= start - 1);
                    assert(i0 != start - 1);
                }
            }
        }
        return false;
    }
    // A qualifying dot can only stand strictly inside the final component.
    let mut j: usize = if start > 0 {
        start + 1
    } else {
        1
    };
    let lo: usize = j;
    while j < n
        invariant
            n == p@.len(),
            lo <= j,
            if start > 0 {
                lo == start + 1
            } else {
                start == 0 && lo == 1
            },
            0 <= start <= n,
            forall|k: int| start <= k < n ==> p@[k] != '/',
            start > 0 ==> start - 1 < n && p@[start - 1] == '/',
            forall|k: int| lo <= k < j ==> p@[k] != '.',
        decreases n - j,
    {
        if p.get_char(j) == '.' {
            assert(spec_has_extension(p@)) by {
                assert(p@[j as int] == '.');
                assert(p@[j - 1] != '/');
                assert(forall|k: int| j < k < p@.len() ==> p@[k] != '/');
            }
            return true;
        }
        j = j + 1;
    }
    assert(!spec_has_extension(p@)) by {
        if spec_has_extension(p@) {
            let i0 = choose|i0: int|
                1 <= i0 < p@.len() && #[trigger] p@[i0] == '.' && p@[i0 - 1] != '/' && (forall|
                    k: int,
                |
                    i0 < k < p@.len() ==> #[trigger] p@[k] != '/');
            if start > 0 {
                // No `/` may stand after `i0`, yet `start - 1` holds one,
                // so `i0` is at least `start - 1`; the dot itself and the
                // character before it rule out `start - 1` and `start`.
                assert(i0 >= start - 1);
                assert(i0 != start - 1);
                assert(i0 != start);
            }
            assert(lo <= i0 < p@.len());
            assert(p@[i0] != '.');
        }
    }
    false
}

/// The probing priority list for a base path `base`: for each known format
/// in order (toml, json, yaml including the `yml` spelling, ron) the base
/// with that extension appended, and — when `base` already carries an
/// extension of its own — the literal base itself paired with
/// `default_format`.
pub open spec fn spec_probe_candidates(base: Seq<char>, default_format: FileFormat) -> Seq<
    (Seq<char>, FileFormat),
> {
    let exts: Seq<(Seq<char>, FileFormat)> = seq![
        (base + ".toml"@, FileFormat::Toml),
        (base + ".json"@, FileFormat::Json),
        (base + ".yaml"@, FileFormat::Yaml),
        (base + ".yml"@, FileFormat::Yaml),
        (base + ".ron"@, FileFormat::Ron),
    ];
    if spec_has_extension(base) {
        exts.push((base, default_format))
    } else {
        exts
    }
}

/// Maps a vector of probe pairs to its view.
pub open spec fn probe_views(v: Seq<(String, FileFormat)>) -> Seq<(Seq<char>, FileFormat)> {
    v.map_values(|pr: (String, FileFormat)| (pr.0@, pr.1))
}

/// Builds the concrete probing list described by [`spec_probe_candidates`].
pub fn probe_candidates(base: &str, default_format: FileFormat) -> (v: Vec<(String, FileFormat)>)
    ensures
        probe_views(v@) == spec_probe_candidates(base@, default_format),
{
    let mut v: Vec<(String, FileFormat)> = Vec::new();
    v.push((String::from_str(base).concat(".toml"), FileFormat::Toml));
    v.push((String::from_str(base).concat(".json"), FileFormat::Json));
    v.push((String::from_str(base).concat(".yaml"), FileFormat::Yaml));
    v.push((String::from_str(base).concat(".yml"), FileFormat::Yaml));
    v.push((String::from_str(base).concat(".ron"), FileFormat::Ron));
    if has_extension(base) {
        v.push((String::from_str(base), default_format));
        assert(probe_views(v@) =~= spec_probe_candidates(base@, default_format));
    } else {
        assert(probe_views(v@) =~= spec_probe_candidates(base@, default_format));
    }
    v
}

/// The first probe in `probes` whose path is among `existing`, scanning in
/// order; `None` when no probe path exists.
pub open spec fn spec_first_hit(
    probes: Seq<(Seq<char>, FileFormat)>,
    existing: Seq<Seq<char>>,
) -> Option<(Seq<char>, FileFormat)>
    decreases probes.len(),
{
    if probes.len() == 0 {
        None
    } else if existing.contains(probes[0].0) {
        Some(probes[0])
    } else {
        spec_first_hit(probes.drop_first(), existing)
    }
}

/// When every probe before `i` misses and probe `i` hits, the first hit is
/// probe `i`.
pub proof fn lemma_first_hit_index(
    probes: Seq<(Seq<char>, FileFormat)>,
    existing: Seq<Seq<char>>,
    i: int,
)
    requires
        0 <= i < probes.len(),
        forall|k: int| 0 <= k < i ==> !existing.contains(#[trigger] probes[k].0),
        existing.contains(probes[i].0),
    ensures
        spec_first_hit(probes, existing) == Some(probes[i]),
    decreases probes.len(),
{
    if i == 0 {
    } else {
        assert(!existing.contains(probes[0].0));
        lemma_first_hit_index(probes.drop_first(), existing, i - 1);
    }
}

/// When every probe misses, there is no first hit.
pub proof fn lemma_first_hit_none(probes: Seq<(Seq<char>, FileFormat)>, existing: Seq<Seq<char>>)
    requires
        forall|k: int| 0 <= k < probes.len() ==> !existing.contains(#[trigger] probes[k].0),
    ensures
        spec_first_hit(probes, existing) is None,
    decreases probes.len(),
{
    if probes.len() > 0 {
        lemma_first_hit_none(probes.drop_first(), existing);
    }
}

/// Whether `s` occurs in `v`, by character content.
fn contains_string(v: &Vec<String>, s: &String) -> (r: bool)
    ensures
        r == seq_views(v@).contains(s@),
{
    let mut i: usize = 0;
    while i < v.len()
        invariant
            0 <= i <= v@.len(),
            forall|k: int| 0 <= k < i ==> seq_views(v@)[k] != s@,
        decreases v@.len() - i,
    {
        if v[i] == *s {
            assert(seq_views(v@)[i as int] == s@);
            return true;
        }
        i = i + 1;
    }
    false
}

/// The probing priority lists of every base in `bases`, concatenated in
/// order.
pub open spec fn spec_bases_probes(bases: Seq<Seq<char>>, default_format: FileFormat) -> Seq<
    (Seq<char>, FileFormat),
>
    decreases bases.len(),
{
    if bases.len() == 0 {
        Seq::empty()
    } else {
        spec_probe_candidates(bases[0], default_format) + spec_bases_probes(
            bases.drop_first(),
            default_format,
        )
    }
}

/// Appending one base appends its probing list.
pub proof fn lemma_bases_probes_push(bases: Seq<Seq<char>>, x: Seq<char>, default_format: FileFormat)
    ensures
        spec_bases_probes(bases.push(x), default_format) == spec_bases_probes(bases, default_format)
            + spec_probe_candidates(x, default_format),
    decreases bases.len(),
{
    if bases.len() == 0 {
        assert(bases.push(x)[0] == x);
        assert(bases.push(x).drop_first() =~= bases);
        assert(spec_bases_probes(bases.push(x), default_format) =~= spec_bases_probes(
            bases,
            default_format,
        ) + spec_probe_candidates(x, default_format));
    } else {
        lemma_bases_probes_push(bases.drop_first(), x, default_format);
        assert(bases.push(x).drop_first() =~= bases.drop_first().push(x));
        assert(bases.push(x)[0] == bases[0]);
        assert(spec_bases_probes(bases.push(x), default_format) =~= spec_bases_probes(
            bases,
            default_format,
        ) + spec_probe_candidates(x, default_format));
    }
}

/// Builds the concatenated probing list of every base in `bases`.
pub fn bases_probes(bases: &Vec<String>, default_format: FileFormat) -> (v: Vec<
    (String, FileFormat),
>)
    ensures
        probe_views(v@) == spec_bases_probes(seq_views(bases@), default_format),
{
    let mut v: Vec<(String, FileFormat)> = Vec::new();
    let mut i: usize = 0;
    assert(seq_views(bases@).take(0) =~= Seq::empty());
    assert(probe_views(v@) =~= spec_bases_probes(seq_views(bases@).take(0), default_format));
    while i < bases.len()
        invariant
            0 <= i <= bases@.len(),
            probe_views(v@) == spec_bases_probes(seq_views(bases@).take(i as int), default_format),
        decreases bases@.len() - i,
    {
        let mut cands = probe_candidates(bases[i].as_str(), default_format);
        let ghost prev = v@;
        let ghost cs = cands@;
        let mut j: usize = 0;
        while j < cands.len()
            invariant
                0 <= j <= cs.len(),
                cands@ == cs,
                v@ == prev + cs.take(j as int),
            decreases cs.len() - j,
        {
            let pair = (cands[j].0.clone(), cands[j].1);
            assert(pair == cs[j as int]);
            v.push(pair);
            assert(v@ =~= prev + cs.take(j + 1));
            j = j + 1;
        }
        proof {
            assert(cs.take(cs.len() as int) =~= cs);
            lemma_bases_probes_push(
                seq_views(bases@).take(i as int),
                bases@[i as int]@,
                default_format,
            );
            assert(seq_views(bases@).take(i as int).push(bases@[i as int]@) =~= seq_views(
                bases@,
            ).take(i + 1));
            assert(probe_views(v@) =~= probe_views(prev) + probe_views(cs));
        }
        i = i + 1;
    }
    assert(seq_views(bases@).take(bases@.len() as int) =~= seq_views(bases@));
    v
}

/// Finds the first probe whose path is among `existing`.
pub fn find_first_hit(probes: &Vec<(String, FileFormat)>, existing: &Vec<String>) -> (r: Option<
    (String, FileFormat),
>)
    ensures
        match r {
            Some(pf) => spec_first_hit(probe_views(probes@), seq_views(existing@)) == Some(
                (pf.0@, pf.1),
            ),
            None => spec_first_hit(probe_views(probes@), seq_views(existing@)) is None,
        },
{
    let ghost pv = probe_views(probes@);
    let mut i: usize = 0;
    while i < probes.len()
        invariant
            pv == probe_views(probes@),
            0 <= i <= probes@.len(),
            forall|k: int| 0 <= k < i ==> !seq_views(existing@).contains(#[trigger] pv[k].0),
        decreases probes@.len() - i,
    {
        if contains_string(existing, &probes[i].0) {
            proof {
                assert(pv[i as int].0 == probes@[i as int].0@);
                lemma_first_hit_index(pv, seq_views(existing@), i as int);
            }
            return Some((probes[i].0.clone(), probes[i].1));
        }
        assert(pv[i as int].0 == probes@[i as int].0@);
        i = i + 1;
    }
    proof {
        lemma_first_hit_none(pv, seq_views(existing@));
    }
    None
}

/// What format detection returns for a base path, a fallback format and a
/// set of existing files: the first hit of the probing priority list.
pub open spec fn spec_detect(
    base: Seq<char>,
    default_format: FileFormat,
    existing: Seq<Seq<char>>,
) -> Option<(Seq<char>, FileFormat)> {
    spec_first_hit(spec_probe_candidates(base, default_format), existing)
}

/// Checks whether a configuration file with the given base **name** exists
/// among `existing`, and returns the concrete path together with the
/// language it uses.
///
/// Extensions are probed one by one, in the sequence `toml`, `json`,
/// `yaml`, `yml`, `ron`; a base name that already carries an extension is
/// finally probed literally and paired with `default_format`.
///
/// `existing` lists the paths that exist on disk; the caller supplies it,
/// as this library performs no disk access itself.
pub fn detect_file_format(base: &str, default_format: FileFormat, existing: &Vec<String>) -> (r:
    Option<(String, FileFormat)>)
    ensures
        match r {
            Some(pf) => spec_detect(base@, default_format, seq_views(existing@)) == Some(
                (pf.0@, pf.1),
            ),
            None => spec_detect(base@, default_format, seq_views(existing@)) is None,
        },
{
    let cands = probe_candidates(base, default_format);
    find_first_hit(&cands, existing)
}

/// The character-sequence paths of a sequence of snapshot entries.
pub open spec fn entry_paths(entries: Seq<(String, String)>) -> Seq<Seq<char>> {
    entries.map_values(|e: (String, String)| e.0@)
}

/// The contents stored for `p` in `entries`, taking the first entry whose
/// path matches; `None` when no entry matches.
pub open spec fn spec_lookup(entries: Seq<(String, String)>, p: Seq<char>) -> Option<Seq<char>>
    decreases entries.len(),
{
    if entries.len() == 0 {
        None
    } else if entries[0].0@ == p {
        Some(entries[0].1@)
    } else {
        spec_lookup(entries.drop_first(), p)
    }
}

/// A lookup succeeds exactly when the path occurs among the entry paths.
pub proof fn lemma_lookup_contains(entries: Seq<(String, String)>, p: Seq<char>)
    ensures
        spec_lookup(entries, p) is Some <==> entry_paths(entries).contains(p),
    decreases entries.len(),
{
    if entries.len() > 0 {
        lemma_lookup_contains(entries.drop_first(), p);
        assert(entry_paths(entries.drop_first()) =~= entry_paths(entries).drop_first());
        if entries[0].0@ == p {
            assert(entry_paths(entries)[0] == p);
        } else {
            if entry_paths(entries).contains(p) {
                let k = choose|k: int|
                    0 <= k < entry_paths(entries).len() && entry_paths(entries)[k] == p;
                assert(k != 0);
                assert(entry_paths(entries).drop_first()[k - 1] == p);
            }
        }
    }
}

/// The files a caller has observed on disk, as plain data: each entry is a
/// path paired with that file's textual contents.
///
/// This library performs no disk access; every operation that would read
/// the file system instead consults a snapshot supplied by the caller, and
/// its contract holds for whatever the snapshot contains.
#[derive(Debug, Clone)]
pub struct FileSnapshot {
    /// The observed files, each a `(path, contents)` pair.  When the same
    /// path occurs twice, the first entry wins.
    pub entries: Vec<(String, String)>,
}

impl FileSnapshot {
    /// A snapshot with no files in it.
    pub fn new() -> (r: FileSnapshot)
        ensures
            r.entries@.len() == 0,
    {
        FileSnapshot { entries: Vec::new() }
    }

    /// Records that the file at `path` exists and holds `contents`.
    pub fn add_file(&mut self, path: String, contents: String)
        ensures
            final(self).entries@ == old(self).entries@.push((path, contents)),
    {
        self.entries.push((path, contents));
    }

    /// Whether the snapshot holds a file at `p`.
    pub open spec fn spec_contains(&self, p: Seq<char>) -> bool {
        entry_paths(self.entries@).contains(p)
    }

    /// The contents of the file at `p`, when the snapshot holds one.
    pub open spec fn spec_contents(&self, p: Seq<char>) -> Option<Seq<char>> {
        spec_lookup(self.entries@, p)
    }

    /// Looks up the contents recorded for `path`.
    pub fn file_contents(&self, path: &String) -> (r: Option<&String>)
        ensures
            match r {
                Some(c) => self.spec_contents(path@) == Some(c@),
                None => self.spec_contents(path@) is None,
            },
    {
        let mut i: usize = 0;
        assert(self.entries@.skip(0) =~= self.entries@);
        while i < self.entries.len()
            invariant
                0 <= i <= self.entries@.len(),
                spec_lookup(self.entries@, path@) == spec_lookup(
                    self.entries@.skip(i as int),
                    path@,
                ),
            decreases self.entries@.len() - i,
        {
            if self.entries[i].0 == *path {
                assert(spec_lookup(self.entries@.skip(i as int), path@) == Some(
                    self.entries@[i as int].1@,
                ));
                return Some(&self.entries[i].1);
            }
            assert(self.entries@.skip(i as int).drop_first() =~= self.entries@.skip(i + 1));
            i = i + 1;
        }
        None
    }

    /// Whether the snapshot holds a file at `path`.
    pub fn contains_path(&self, path: &String) -> (r: bool)
        ensures
            r == self.spec_contains(path@),
    {
        proof {
            lemma_lookup_contains(self.entries@, path@);
        }
        match self.file_contents(path) {
            Some(_) => true,
            None => false,
        }
    }

    /// The paths of every file in the snapshot, in entry order.
    pub fn existing_paths(&self) -> (v: Vec<String>)
        ensures
            seq_views(v@) == entry_paths(self.entries@),
    {
        let mut v: Vec<String> = Vec::new();
        let mut i: usize = 0;
        while i < self.entries.len()
            invariant
                0 <= i <= self.entries@.len(),
                v@.len() == i,
                forall|k: int| 0 <= k < i ==> #[trigger] v@[k]@ == self.entries@[k].0@,
            decreases self.entries@.len() - i,
        {
            v.push(self.entries[i].0.clone());
            i = i + 1;
        }
        assert(seq_views(v@) =~= entry_paths(self.entries@));
        v
    }
}

/// One pending file write: the caller should create the parent directory
/// tree of `path` (recursively), then replace the file at `path` with
/// `contents`, truncating or creating it.
///
/// Write operations return the request instead of touching the disk, so
/// the whole encoded document is handed over in one piece: a caller never
/// observes a partial write interleaved with a serialization error.
#[derive(Debug, Clone)]
pub struct WriteRequest {
    /// The file to create or replace.
    pub path: String,
    /// The full new contents of the file.
    pub contents: String,
}

/// A possibly existing configuration file.
///
/// Different from [`ConfigFile`], this contains a nullable source path.
/// If the path is absent, the terminal `read`/`write` operations return a
/// [`ConrigError::NoConfigurationFile`] error; one of the `fallback_*`
/// operations installs a path and turns the handle into a [`ConfigFile`].
#[derive(Debug, Clone)]
pub struct RawConfigFile {
    /// The format of the configuration file.
    pub file_format: FileFormat,
    /// The path of the configuration file.
    ///
    /// If the search found an existing configuration file, this holds its
    /// path; otherwise it is `None`, and a fallback operation must install
    /// a path before any terminal operation can succeed.
    pub path: Option<String>,
    /// The configuration that created this handle, consulted by the
    /// fallback operations.
    pub config: ConfigPathMetadata,
}

impl RawConfigFile {
    /// Create a new `RawConfigFile`.
    pub fn new(file_format: FileFormat, path: Option<String>, config: ConfigPathMetadata) -> (r:
        RawConfigFile)
        ensures
            r.file_format == file_format,
            r.path == path,
            r.config == config,
    {
        RawConfigFile { file_format, path, config }
    }

    /// Set a fallback path for the configuration file.
    ///
    /// A path found by the search is never overridden: `path` is used only
    /// when the handle holds no path yet.
    pub fn fallback_path(self, path: String) -> (r: ConfigFile)
        ensures
            r.file_format == self.file_format,
            match self.path {
                Some(p) => r.path == p,
                None => r.path == path,
            },
    {
        match self.path {
            Some(p) => ConfigFile { file_format: self.file_format, path: p },
            None => ConfigFile { file_format: self.file_format, path },
        }
    }

    /// Set the default system-level configuration file path as a fallback
    /// path for the configuration file.
    ///
    /// A path found by the search is never overridden.  When a fallback is
    /// needed, it fails with [`FileSystemError::NoProjectDirectory`]
    /// exactly when the platform offers no system root.
    pub fn fallback_default_sys(self) -> (r: Result<ConfigFile, ConrigError>)
        requires
            self.config.wf(),
        ensures
            self.path matches Some(p) ==> (r matches Ok(c) && c.path == p && c.file_format
                == self.file_format),
            self.path is None ==> {
                &&& r matches Ok(c) ==> c.file_format == self.file_format && (exists|
                    root: Seq<char>,
                |
                    c.path@ == self.config.spec_default_file(root))
                &&& r matches Err(e) ==> e == ConrigError::FileSystemError(
                    FileSystemError::NoProjectDirectory,
                )
            },
    {
        match self.path {
            Some(p) => Ok(ConfigFile { file_format: self.file_format, path: p }),
            None => match self.config.default_sys_config_file() {
                Ok(p) => Ok(ConfigFile { file_format: self.file_format, path: p }),
                Err(e) => Err(e),
            },
        }
    }

    /// Set the default configuration file path of the local directory
    /// `local_root` as a fallback path for the configuration file.
    ///
    /// A path found by the search is never overridden.
    pub fn fallback_default_local(self, local_root: &str) -> (r: ConfigFile)
        requires
            self.config.wf(),
        ensures
            r.file_format == self.file_format,
            match self.path {
                Some(p) => r.path == p,
                None => r.path@ == self.config.spec_default_file(local_root@),
            },
    {
        match self.path {
            Some(p) => ConfigFile { file_format: self.file_format, path: p },
            None => {
                let p = self.config.default_local_config_file(local_root);
                ConfigFile { file_format: self.file_format, path: p }
            },
        }
    }

    /// Set the default configuration file path as a fallback path for the
    /// configuration file, depending on
    /// `config_option.sys_override_local`: the system-level default when
    /// set, the local default under `local_root` otherwise.
    ///
    /// A path found by the search is never overridden.
    pub fn fallback_default(self, local_root: &str) -> (r: Result<ConfigFile, ConrigError>)
        requires
            self.config.wf(),
        ensures
            self.path matches Some(p) ==> (r matches Ok(c) && c.path == p && c.file_format
                == self.file_format),
            self.path is None && !self.config.config_option.sys_override_local ==> (r matches Ok(c)
                && c.file_format == self.file_format && c.path@ == self.config.spec_default_file(
                local_root@,
            )),
            self.path is None && self.config.config_option.sys_override_local ==> {
                &&& r matches Ok(c) ==> c.file_format == self.file_format && (exists|
                    root: Seq<char>,
                |
                    c.path@ == self.config.spec_default_file(root))
                &&& r matches Err(e) ==> e == ConrigError::FileSystemError(
                    FileSystemError::NoProjectDirectory,
                )
            },
    {
        if self.config.config_option.sys_override_local {
            self.fallback_default_sys()
        } else {
            Ok(self.fallback_default_local(local_root))
        }
    }

    /// Read and deserialize the configuration file from the caller's
    /// observed snapshot.  Fail if the configuration doesn't exist.
    ///
    /// If `path` is `None`, a [`ConrigError::NoConfigurationFile`] error
    /// is returned.
    pub fn read<T: serde::de::DeserializeOwned>(&self, files: &FileSnapshot) -> (r: Result<
        T,
        ConrigError,
    >)
        ensures
            self.path is None ==> r == Result::<T, ConrigError>::Err(
                ConrigError::NoConfigurationFile,
            ),
            self.path matches Some(p) && !files.spec_contains(p@) ==> r == Result::<
                T,
                ConrigError,
            >::Err(ConrigError::FileSystemError(FileSystemError::OpenConfig)),
            self.path matches Some(p) && files.spec_contains(p@) ==> (r matches Err(e) ==> (
            e matches ConrigError::LangError(le) && self.file_format.is_decode_error(le))),
    {
        match &self.path {
            Some(p) => ConfigFile { file_format: self.file_format, path: p.clone() }.read::<
                T,
            >(files),
            None => Err(ConrigError::NoConfigurationFile),
        }
    }

    /// Serialize a value for the configuration file, producing the
    /// [`WriteRequest`] the caller should persist.
    ///
    /// If `path` is `None`, a [`ConrigError::NoConfigurationFile`] error
    /// is returned and nothing is to be written.
    pub fn write<T: serde::Serialize>(&self, value: &T) -> (r: Result<WriteRequest, ConrigError>)
        ensures
            self.path is None ==> r == Result::<WriteRequest, ConrigError>::Err(
                ConrigError::NoConfigurationFile,
            ),
            self.path matches Some(p) ==> {
                &&& r matches Ok(w) ==> w.path == p
                &&& r matches Err(e) ==> (e matches ConrigError::LangError(le)
                    && self.file_format.is_encode_error(le))
            },
    {
        match &self.path {
            Some(p) => ConfigFile { file_format: self.file_format, path: p.clone() }.write(value),
            None => Err(ConrigError::NoConfigurationFile),
        }
    }

    /// Read and deserialize the configuration file from the caller's
    /// observed snapshot; if the file doesn't exist there, serialize the
    /// provided `default` value instead and hand back both the value —
    /// returned unchanged, never re-read — and the [`WriteRequest`] that
    /// creates the file.
    ///
    /// If `path` is `None`, a [`ConrigError::NoConfigurationFile`] error
    /// is returned.
    pub fn read_or_new<T: serde::Serialize + serde::de::DeserializeOwned>(
        &self,
        default: T,
        files: &FileSnapshot,
    ) -> (r: Result<(T, Option<WriteRequest>), ConrigError>)
        ensures
            self.path is None ==> r == Result::<(T, Option<WriteRequest>), ConrigError>::Err(
                ConrigError::NoConfigurationFile,
            ),
            self.path matches Some(p) ==> (files.spec_contains(p@) ==> {
                &&& r matches Ok(out) ==> out.1 is None
                &&& r matches Err(e) ==> (e matches ConrigError::LangError(le)
                    && self.file_format.is_decode_error(le))
            }),
            self.path matches Some(p) ==> (!files.spec_contains(p@) ==> {
                &&& r matches Ok(out) ==> out.0 == default && (out.1 matches Some(w) && w.path
                    == p)
                &&& r matches Err(e) ==> (e matches ConrigError::LangError(le)
                    && self.file_format.is_encode_error(le))
            }),
    {
        match &self.path {
            Some(p) => ConfigFile { file_format: self.file_format, path: p.clone() }.read_or_new(
                default,
                files,
            ),
            None => Err(ConrigError::NoConfigurationFile),
        }
    }

    /// Read and deserialize the configuration file from the caller's
    /// observed snapshot; if the file doesn't exist there, fall back to the
    /// type's own default value, as [`RawConfigFile::read_or_new`] does.
    ///
    /// If `path` is `None`, a [`ConrigError::NoConfigurationFile`] error
    /// is returned.
    pub fn read_or_default<
        T: serde::Serialize + serde::de::DeserializeOwned + core::default::Default,
    >(&self, files: &FileSnapshot) -> (r: Result<(T, Option<WriteRequest>), ConrigError>)
        ensures
            self.path is None ==> r == Result::<(T, Option<WriteRequest>), ConrigError>::Err(
                ConrigError::NoConfigurationFile,
            ),
            self.path matches Some(p) ==> (files.spec_contains(p@) ==> {
                &&& r matches Ok(out) ==> out.1 is None
                &&& r matches Err(e) ==> (e matches ConrigError::LangError(le)
                    && self.file_format.is_decode_error(le))
            }),
            self.path matches Some(p) ==> (!files.spec_contains(p@) ==> {
                &&& r matches Ok(out) ==> (out.1 matches Some(w) && w.path == p)
                &&& r matches Err(e) ==> (e matches ConrigError::LangError(le)
                    && self.file_format.is_encode_error(le))
            }),
    {
        self.read_or_new(T::default(), files)
    }
}

/// A configuration file with a definite path.
///
/// Different from [`RawConfigFile`], this contains a never nullable source
/// path, so its terminal operations cannot fail for want of one.
#[derive(Debug, Clone)]
pub struct ConfigFile {
    /// The format of the configuration file.
    pub file_format: FileFormat,
    /// The path of the configuration file.
    pub path: String,
}

impl ConfigFile {
    /// Create a new `ConfigFile`.
    pub fn new(file_format: FileFormat, path: String) -> (r: ConfigFile)
        ensures
            r.file_format == file_format,
            r.path == path,
    {
        ConfigFile { file_format, path }
    }

    /// Read and deserialize the configuration file from the caller's
    /// observed snapshot.
    ///
    /// A path missing from the snapshot — the file does not exist or could
    /// not be opened — is reported as
    /// [`FileSystemError::OpenConfig`], distinct from a decode failure,
    /// which is surfaced as the format's [`ConrigError::LangError`].
    pub fn read<T: serde::de::DeserializeOwned>(&self, files: &FileSnapshot) -> (r: Result<
        T,
        ConrigError,
    >)
        ensures
            !files.spec_contains(self.path@) ==> r == Result::<T, ConrigError>::Err(
                ConrigError::FileSystemError(FileSystemError::OpenConfig),
            ),
            files.spec_contains(self.path@) ==> (r matches Err(e) ==> (
            e matches ConrigError::LangError(le) && self.file_format.is_decode_error(le))),
    {
        proof {
            lemma_lookup_contains(files.entries@, self.path@);
        }
        match files.file_contents(&self.path) {
            Some(contents) => match self.file_format.read_str::<T>(contents.as_str()) {
                Ok(v) => Ok(v),
                Err(e) => Err(ConrigError::LangError(e)),
            },
            None => Err(ConrigError::FileSystemError(FileSystemError::OpenConfig)),
        }
    }

    /// Serialize a value for the configuration file, producing the
    /// [`WriteRequest`] the caller should persist: create the parent
    /// directory tree, then replace the file's contents with the encoded
    /// document in one piece.
    pub fn write<T: serde::Serialize>(&self, value: &T) -> (r: Result<WriteRequest, ConrigError>)
        ensures
            r matches Ok(w) ==> w.path == self.path,
            r matches Err(e) ==> (e matches ConrigError::LangError(le)
                && self.file_format.is_encode_error(le)),
    {
        match self.file_format.write_str(value) {
            Ok(s) => Ok(WriteRequest { path: self.path.clone(), contents: s }),
            Err(e) => Err(ConrigError::LangError(e)),
        }
    }

    /// Read and deserialize the configuration file from the caller's
    /// observed snapshot; if the file doesn't exist there, serialize the
    /// provided `default` value instead and hand back both the value —
    /// returned unchanged, never re-read — and the [`WriteRequest`] that
    /// creates the file.
    pub fn read_or_new<T: serde::Serialize + serde::de::DeserializeOwned>(
        &self,
        default: T,
        files: &FileSnapshot,
    ) -> (r: Result<(T, Option<WriteRequest>), ConrigError>)
        ensures
            files.spec_contains(self.path@) ==> {
                &&& r matches Ok(out) ==> out.1 is None
                &&& r matches Err(e) ==> (e matches ConrigError::LangError(le)
                    && self.file_format.is_decode_error(le))
            },
            !files.spec_contains(self.path@) ==> {
                &&& r matches Ok(out) ==> out.0 == default && (out.1 matches Some(w) && w.path
                    == self.path)
                &&& r matches Err(e) ==> (e matches ConrigError::LangError(le)
                    && self.file_format.is_encode_error(le))
            },
    {
        if self.contains_self(files) {
            match self.read::<T>(files) {
                Ok(v) => Ok((v, None)),
                Err(e) => Err(e),
            }
        } else {
            match self.write(&default) {
                Ok(w) => Ok((default, Some(w))),
                Err(e) => Err(e),
            }
        }
    }

    /// Read and deserialize the configuration file from the caller's
    /// observed snapshot; if the file doesn't exist there, fall back to
    /// the type's own default value, as [`ConfigFile::read_or_new`] does.
    pub fn read_or_default<
        T: serde::Serialize + serde::de::DeserializeOwned + core::default::Default,
    >(&self, files: &FileSnapshot) -> (r: Result<(T, Option<WriteRequest>), ConrigError>)
        ensures
            files.spec_contains(self.path@) ==> {
                &&& r matches Ok(out) ==> out.1 is None
                &&& r matches Err(e) ==> (e matches ConrigError::LangError(le)
                    && self.file_format.is_decode_error(le))
            },
            !files.spec_contains(self.path@) ==> {
                &&& r matches Ok(out) ==> (out.1 matches Some(w) && w.path == self.path)
                &&& r matches Err(e) ==> (e matches ConrigError::LangError(le)
                    && self.file_format.is_encode_error(le))
            },
    {
        self.read_or_new(T::default(), files)
    }

    /// Whether the snapshot holds this handle's own file.
    fn contains_self(&self, files: &FileSnapshot) -> (r: bool)
        ensures
            r == files.spec_contains(self.path@),
    {
        files.contains_path(&self.path)
    }
}

/// Relies on `toml::from_str` to parse a TOML document and deserialize a
/// `T` from it.
#[verifier::external_body]
fn toml_from_str<'de, T: serde::Deserialize<'de>>(s: &'de str) -> (r: Result<T, toml::de::Error>) {
    toml::from_str(s)
}

/// Relies on `ron::from_str` to parse a RON document and deserialize a `T`
/// from it.
#[verifier::external_body]
fn ron_from_str<'de, T: serde::Deserialize<'de>>(s: &'de str) -> (r: Result<
    T,
    ron::error::SpannedError,
>) {
    ron::from_str(s)
}

/// Relies on `serde_json::from_str` to parse a JSON document and
/// deserialize a `T` from it.
#[verifier::external_body]
fn json_from_str<'de, T: serde::Deserialize<'de>>(s: &'de str) -> (r: Result<
    T,
    serde_json::Error,
>) {
    serde_json::from_str(s)
}

/// Relies on `serde_yaml::from_str` to parse a YAML document and
/// deserialize a `T` from it.
#[verifier::external_body]
fn yaml_from_str<'de, T: serde::Deserialize<'de>>(s: &'de str) -> (r: Result<
    T,
    serde_yaml::Error,
>) {
    serde_yaml::from_str(s)
}

/// Relies on `toml::to_string` to serialize a `T` into a TOML document.
#[verifier::external_body]
fn toml_to_string<T: serde::Serialize>(v: &T) -> (r: Result<String, toml::ser::Error>) {
    toml::to_string(v)
}

/// Relies on `ron::to_string` to serialize a `T` into a RON document.
#[verifier::external_body]
fn ron_to_string<T: serde::Serialize>(v: &T) -> (r: Result<String, ron::error::Error>) {
    ron::to_string(v)
}

/// Relies on `serde_json::to_string` to serialize a `T` into a JSON
/// document.
#[verifier::external_body]
fn json_to_string<T: serde::Serialize>(v: &T) -> (r: Result<String, serde_json::Error>) {
    serde_json::to_string(v)
}

/// Relies on `serde_yaml::to_string` to serialize a `T` into a YAML
/// document.
#[verifier::external_body]
fn yaml_to_string<T: serde::Serialize>(v: &T) -> (r: Result<String, serde_yaml::Error>) {
    serde_yaml::to_string(v)
}

} // verus!

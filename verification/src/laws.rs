//! The ordering and tie-breaking laws of the configuration file search,
//! stated and proved over the search's own specification functions.

use vstd::prelude::*;

verus! {

use crate::parser::{seq_views, spec_bases_probes, spec_first_hit, spec_probe_candidates, FileFormat};
use crate::path::{spec_join, ConfigPathMetadata};

/// The root searched first: the system root exactly when
/// `sys_override_local` is set, the local root otherwise.
pub open spec fn spec_first_root(
    d: ConfigPathMetadata,
    sys_root: Seq<char>,
    local_root: Seq<char>,
) -> Seq<char> {
    if d.config_option.sys_override_local {
        sys_root
    } else {
        local_root
    }
}

/// The root searched second.
pub open spec fn spec_second_root(
    d: ConfigPathMetadata,
    sys_root: Seq<char>,
    local_root: Seq<char>,
) -> Seq<char> {
    if d.config_option.sys_override_local {
        local_root
    } else {
        sys_root
    }
}

/// Probing distributes over concatenation of base lists.
pub proof fn lemma_bases_probes_concat(a: Seq<Seq<char>>, b: Seq<Seq<char>>, fmt: FileFormat)
    ensures
        spec_bases_probes(a + b, fmt) == spec_bases_probes(a, fmt) + spec_bases_probes(b, fmt),
    decreases a.len(),
{
    if a.len() == 0 {
        assert(a + b =~= b);
        assert(spec_bases_probes(a + b, fmt) =~= spec_bases_probes(a, fmt) + spec_bases_probes(
            b,
            fmt,
        ));
    } else {
        lemma_bases_probes_concat(a.drop_first(), b, fmt);
        assert((a + b).drop_first() =~= a.drop_first() + b);
        assert((a + b)[0] == a[0]);
        assert(spec_bases_probes(a + b, fmt) =~= spec_bases_probes(a, fmt) + spec_bases_probes(
            b,
            fmt,
        ));
    }
}

/// Priority order is total and stable: the probe sequence is exactly the
/// concatenation, in order, of the probes of the extra files, of the
/// extra folders, of the first root and of the second root — the system
/// root standing first exactly when `sys_override_local` is set.
pub proof fn lemma_priority_order(
    d: ConfigPathMetadata,
    sys_root: Seq<char>,
    local_root: Seq<char>,
)
    ensures
        d.spec_search_probes(sys_root, local_root) == spec_bases_probes(
            seq_views(d.extra_files@),
            d.default_format,
        ) + spec_bases_probes(
            ConfigPathMetadata::spec_folders_bases(
                d.extra_folders@,
                d.config_name@,
                d.config_option.allow_dot_prefix,
            ),
            d.default_format,
        ) + spec_bases_probes(
            ConfigPathMetadata::spec_root_bases(
                spec_first_root(d, sys_root, local_root),
                d.config_name@,
                d.config_option.allow_dot_prefix,
            ),
            d.default_format,
        ) + spec_bases_probes(
            ConfigPathMetadata::spec_root_bases(
                spec_second_root(d, sys_root, local_root),
                d.config_name@,
                d.config_option.allow_dot_prefix,
            ),
            d.default_format,
        ),
{
    let wd = d.config_option.allow_dot_prefix;
    let files = seq_views(d.extra_files@);
    let folders = ConfigPathMetadata::spec_folders_bases(d.extra_folders@, d.config_name@, wd);
    let first = ConfigPathMetadata::spec_root_bases(
        spec_first_root(d, sys_root, local_root),
        d.config_name@,
        wd,
    );
    let second = ConfigPathMetadata::spec_root_bases(
        spec_second_root(d, sys_root, local_root),
        d.config_name@,
        wd,
    );
    assert(d.spec_search_bases(sys_root, local_root) =~= files + folders + (first + second));
    lemma_bases_probes_concat(files + folders + first, second, d.default_format);
    lemma_bases_probes_concat(files + folders, first, d.default_format);
    lemma_bases_probes_concat(files, folders, d.default_format);
    assert(files + folders + (first + second) =~= files + folders + first + second);
}

/// Within one root, each candidate name is tried before the next, and —
/// when dot-prefixed files are allowed — the non-dotted form of a name is
/// always tried before its dotted form.
pub proof fn lemma_root_bases_order(root: Seq<char>, names: Seq<String>, with_dot: bool)
    ensures
        with_dot ==> ConfigPathMetadata::spec_root_bases(root, names, with_dot).len() == 2
            * names.len() && (forall|i: int|
            #![trigger names[i]]
            0 <= i < names.len() ==> ConfigPathMetadata::spec_root_bases(root, names, with_dot)[2
                * i] == spec_join(root, names[i]@) && ConfigPathMetadata::spec_root_bases(
                root,
                names,
                with_dot,
            )[2 * i + 1] == spec_join(root, "."@ + names[i]@)),
        !with_dot ==> ConfigPathMetadata::spec_root_bases(root, names, with_dot).len()
            == names.len() && (forall|i: int|
            #![trigger names[i]]
            0 <= i < names.len() ==> ConfigPathMetadata::spec_root_bases(root, names, with_dot)[i]
                == spec_join(root, names[i]@)),
    decreases names.len(),
{
    if names.len() > 0 {
        lemma_root_bases_order(root, names.drop_first(), with_dot);
        let rb = ConfigPathMetadata::spec_root_bases(root, names, with_dot);
        let rb2 = ConfigPathMetadata::spec_root_bases(root, names.drop_first(), with_dot);
        let ex = ConfigPathMetadata::spec_expand_name(root, names[0]@, with_dot);
        assert(rb == ex + rb2);
        if with_dot {
            assert(rb.len() == 2 * names.len());
            assert forall|i: int| 0 <= i < names.len() implies rb[2 * i] == spec_join(
                root,
                names[i]@,
            ) && rb[2 * i + 1] == spec_join(root, "."@ + names[i]@) by {
                if i == 0 {
                    assert(rb[0] == ex[0]);
                    assert(rb[1] == ex[1]);
                } else {
                    assert(names.drop_first()[i - 1] == names[i]);
                    assert(rb[2 * i] == rb2[2 * (i - 1)]);
                    assert(rb[2 * i + 1] == rb2[2 * (i - 1) + 1]);
                }
            }
        } else {
            assert(rb.len() == names.len());
            assert forall|i: int| 0 <= i < names.len() implies rb[i] == spec_join(
                root,
                names[i]@,
            ) by {
                if i == 0 {
                    assert(rb[0] == ex[0]);
                } else {
                    assert(names.drop_first()[i - 1] == names[i]);
                    assert(rb[i] == rb2[i - 1]);
                }
            }
        }
    }
}

/// The registered extensions in probing order, each with the format it
/// announces: `.toml`, `.json`, `.yaml`, `.yml`, `.ron`.
pub open spec fn spec_ext_pairs() -> Seq<(Seq<char>, FileFormat)> {
    seq![
        (".toml"@, FileFormat::Toml),
        (".json"@, FileFormat::Json),
        (".yaml"@, FileFormat::Yaml),
        (".yml"@, FileFormat::Yaml),
        (".ron"@, FileFormat::Ron),
    ]
}

/// The first five probes of any base are the base with each registered
/// extension appended, in probing order.
pub proof fn lemma_probe_candidates_exts(base: Seq<char>, f: FileFormat)
    ensures
        spec_probe_candidates(base, f).len() >= 5,
        forall|j: int|
            0 <= j < 5 ==> #[trigger] spec_probe_candidates(base, f)[j] == (
                base + spec_ext_pairs()[j].0,
                spec_ext_pairs()[j].1,
            ),
{
}

/// Concatenation on the left is injective: equal results mean equal
/// suffixes.
pub proof fn lemma_append_inj(a: Seq<char>, e1: Seq<char>, e2: Seq<char>)
    requires
        a + e1 == a + e2,
    ensures
        e1 == e2,
{
    assert((a + e1).len() == a.len() + e1.len());
    assert((a + e2).len() == a.len() + e2.len());
    assert(e1.len() == e2.len());
    assert forall|i: int| 0 <= i < e1.len() implies e1[i] == e2[i] by {
        assert(e1.len() == e2.len());
        assert((a + e1)[a.len() + i] == e1[i]);
        assert((a + e2)[a.len() + i] == e2[i]);
    }
    assert(e1 =~= e2);
}

/// The five registered extensions are pairwise distinct.
pub proof fn lemma_ext_pairs_distinct()
    ensures
        forall|i: int, j: int|
            0 <= i < 5 && 0 <= j < 5 && i != j ==> #[trigger] spec_ext_pairs()[i].0
                != #[trigger] spec_ext_pairs()[j].0,
{
    reveal_strlit(".toml");
    reveal_strlit(".json");
    reveal_strlit(".yaml");
    reveal_strlit(".yml");
    reveal_strlit(".ron");
    assert(".toml"@.len() == 5 && ".json"@.len() == 5 && ".yaml"@.len() == 5 && ".yml"@.len() == 4
        && ".ron"@.len() == 4);
    assert(".toml"@[1] == 't' && ".json"@[1] == 'j' && ".yaml"@[1] == 'y' && ".yml"@[1] == 'y'
        && ".ron"@[1] == 'r');
    assert(".toml"@ != ".json"@ && ".toml"@ != ".yaml"@ && ".toml"@ != ".yml"@ && ".toml"@
        != ".ron"@);
    assert(".json"@ != ".yaml"@ && ".json"@ != ".yml"@ && ".json"@ != ".ron"@);
    assert(".yaml"@ != ".yml"@ && ".yaml"@ != ".ron"@);
    assert(".yml"@ != ".ron"@);
}

/// For any descriptor without extra files or folders, a file standing at
/// `<first root>/<first name><registered extension>` — and nothing else
/// existing — is resolved to exactly that path with the extension's
/// format, whatever other candidate names the descriptor carries.
pub proof fn lemma_first_name_resolution(
    d: ConfigPathMetadata,
    sys_root: Seq<char>,
    local_root: Seq<char>,
    k: int,
)
    requires
        d.wf(),
        d.extra_files@.len() == 0,
        d.extra_folders@.len() == 0,
        0 <= k < 5,
    ensures
        ({
            let root = spec_first_root(d, sys_root, local_root);
            let target = spec_join(root, d.config_name@[0]@) + spec_ext_pairs()[k].0;
            d.spec_search_result(sys_root, local_root, seq![target]) == Some(
                (target, spec_ext_pairs()[k].1),
            )
        }),
{
    let root = spec_first_root(d, sys_root, local_root);
    let other = spec_second_root(d, sys_root, local_root);
    let names = d.config_name@;
    let wd = d.config_option.allow_dot_prefix;
    let fmt = d.default_format;
    let b0 = spec_join(root, names[0]@);
    let target = b0 + spec_ext_pairs()[k].0;
    let existing = seq![target];
    let bases = d.spec_search_bases(sys_root, local_root);
    let first = ConfigPathMetadata::spec_root_bases(root, names, wd);
    let second = ConfigPathMetadata::spec_root_bases(other, names, wd);
    assert(bases =~= first + second);
    assert(first == ConfigPathMetadata::spec_expand_name(root, names[0]@, wd)
        + ConfigPathMetadata::spec_root_bases(root, names.drop_first(), wd));
    assert(first[0] == b0);
    assert(bases.len() > 0 && bases[0] == b0);
    let probes = d.spec_search_probes(sys_root, local_root);
    let pc = spec_probe_candidates(b0, fmt);
    assert(probes == pc + spec_bases_probes(bases.drop_first(), fmt));
    lemma_probe_candidates_exts(b0, fmt);
    lemma_ext_pairs_distinct();
    assert(existing[0] == target);
    assert forall|j: int| 0 <= j < k implies !existing.contains(#[trigger] probes[j].0) by {
        assert(probes[j] == pc[j]);
        assert(pc[j].0 == b0 + spec_ext_pairs()[j].0);
        if existing.contains(probes[j].0) {
            let idx = choose|idx: int|
                0 <= idx < existing.len() && existing[idx] == probes[j].0;
            assert(probes[j].0 == target);
            lemma_append_inj(b0, spec_ext_pairs()[j].0, spec_ext_pairs()[k].0);
        }
    }
    assert(probes[k] == pc[k]);
    assert(probes[k].0 == target);
    assert(existing.contains(probes[k].0)) by {
        assert(existing[0] == probes[k].0);
    }
    crate::parser::lemma_first_hit_index(probes, existing, k);
    assert(probes[k] == (target, spec_ext_pairs()[k].1));
}

/// Holds when the final component of `p` starts with a dot: some dot in
/// `p` stands at the very beginning or right after a `/`, with no further
/// `/` behind it.
pub open spec fn spec_dot_prefixed(p: Seq<char>) -> bool {
    exists|i: int|
        0 <= i < p.len() && #[trigger] p[i] == '.' && (i == 0 || p[i - 1] == '/') && (forall|
            k: int,
        |
            i < k < p.len() ==> #[trigger] p[k] != '/')
}

/// Holds when `s` contains no path separator.
pub open spec fn spec_no_slash(s: Seq<char>) -> bool {
    forall|i: int| 0 <= i < s.len() ==> #[trigger] s[i] != '/'
}

/// A plain candidate name: non-empty, not dot-prefixed, and without a
/// path separator.
pub open spec fn spec_plain_name(name: Seq<char>) -> bool {
    name.len() > 0 && name[0] != '.' && spec_no_slash(name)
}

/// No registered extension is empty or contains a path separator.
pub proof fn lemma_ext_no_slash()
    ensures
        forall|j: int|
            0 <= j < 5 ==> spec_no_slash(#[trigger] spec_ext_pairs()[j].0)
                && spec_ext_pairs()[j].0.len() > 0,
{
    reveal_strlit(".toml");
    reveal_strlit(".json");
    reveal_strlit(".yaml");
    reveal_strlit(".yml");
    reveal_strlit(".ron");
    assert(spec_no_slash(".toml"@)) by {
        assert forall|i: int| 0 <= i < ".toml"@.len() implies ".toml"@[i] != '/' by {
            assert(".toml"@.len() == 5);
            assert(".toml"@[0] == '.' && ".toml"@[1] == 't' && ".toml"@[2] == 'o' && ".toml"@[3]
                == 'm' && ".toml"@[4] == 'l');
        }
    }
    assert(spec_no_slash(".json"@)) by {
        assert forall|i: int| 0 <= i < ".json"@.len() implies ".json"@[i] != '/' by {
            assert(".json"@.len() == 5);
            assert(".json"@[0] == '.' && ".json"@[1] == 'j' && ".json"@[2] == 's' && ".json"@[3]
                == 'o' && ".json"@[4] == 'n');
        }
    }
    assert(spec_no_slash(".yaml"@)) by {
        assert forall|i: int| 0 <= i < ".yaml"@.len() implies ".yaml"@[i] != '/' by {
            assert(".yaml"@.len() == 5);
            assert(".yaml"@[0] == '.' && ".yaml"@[1] == 'y' && ".yaml"@[2] == 'a' && ".yaml"@[3]
                == 'm' && ".yaml"@[4] == 'l');
        }
    }
    assert(spec_no_slash(".yml"@)) by {
        assert forall|i: int| 0 <= i < ".yml"@.len() implies ".yml"@[i] != '/' by {
            assert(".yml"@.len() == 4);
            assert(".yml"@[0] == '.' && ".yml"@[1] == 'y' && ".yml"@[2] == 'm' && ".yml"@[3]
                == 'l');
        }
    }
    assert(spec_no_slash(".ron"@)) by {
        assert forall|i: int| 0 <= i < ".ron"@.len() implies ".ron"@[i] != '/' by {
            assert(".ron"@.len() == 4);
            assert(".ron"@[0] == '.' && ".ron"@[1] == 'r' && ".ron"@[2] == 'o' && ".ron"@[3]
                == 'n');
        }
    }
}

/// A path of the shape `<root>/<s>`, where `s` is non-empty, separator
/// free and does not start with a dot, is not dot-prefixed.
pub proof fn lemma_not_dot_prefixed(root: Seq<char>, s: Seq<char>)
    requires
        s.len() > 0,
        s[0] != '.',
        spec_no_slash(s),
    ensures
        !spec_dot_prefixed(root + "/"@ + s),
{
    reveal_strlit("/");
    let p = root + "/"@ + s;
    assert(p.len() == root.len() + 1 + s.len());
    assert(p[root.len() as int] == '/') by {
        assert((root + "/"@)[root.len() as int] == "/"@[0]);
    }
    if spec_dot_prefixed(p) {
        let i = choose|i: int|
            0 <= i < p.len() && #[trigger] p[i] == '.' && (i == 0 || p[i - 1] == '/') && (forall|
                k: int,
            |
                i < k < p.len() ==> #[trigger] p[k] != '/');
        // No separator may stand after `i`, yet one stands at `root.len()`,
        // so `i` is at least there; the dot itself rules that index out.
        assert(i >= root.len());
        assert(i > root.len());
        // The character before the dot must be the separator at
        // `root.len()`, so the dot is the first character of `s`.
        assert(p[i - 1] == '/');
        assert(i - 1 >= root.len());
        if i - 1 > root.len() {
            assert(p[i - 1] == s[i - 1 - root.len() - 1]);
            assert(false);
        }
        assert(i == root.len() + 1);
        assert(p[i] == s[0]);
        assert(false);
    }
}

/// No probe of a base `<root>/<plain name>` is dot-prefixed.
pub proof fn lemma_base_probes_not_dotted(root: Seq<char>, name: Seq<char>, f: FileFormat)
    requires
        spec_plain_name(name),
    ensures
        forall|j: int|
            0 <= j < spec_probe_candidates(spec_join(root, name), f).len()
                ==> !spec_dot_prefixed(
                #[trigger] spec_probe_candidates(spec_join(root, name), f)[j].0,
            ),
{
    lemma_ext_no_slash();
    let b = spec_join(root, name);
    let pc = spec_probe_candidates(b, f);
    lemma_probe_candidates_exts(b, f);
    assert(pc.len() <= 6);
    assert forall|j: int| 0 <= j < pc.len() implies !spec_dot_prefixed(pc[j].0) by {
        if j < 5 {
            let e = spec_ext_pairs()[j].0;
            assert(pc[j].0 == b + e);
            let s = name + e;
            assert(b + e =~= root + "/"@ + s);
            assert(s[0] == name[0]);
            assert forall|t: int| 0 <= t < s.len() implies s[t] != '/' by {
                if t < name.len() {
                    assert(s[t] == name[t]);
                } else {
                    assert(s[t] == e[t - name.len()]);
                }
            }
            lemma_not_dot_prefixed(root, s);
        } else {
            assert(pc[j] == (b, f));
            assert(b =~= root + "/"@ + name);
            lemma_not_dot_prefixed(root, name);
        }
    }
}

/// No probe of a root whose candidate names are plain — searched without
/// dot-prefixed variants — is dot-prefixed.
pub proof fn lemma_root_probes_not_dotted(root: Seq<char>, names: Seq<String>, f: FileFormat)
    requires
        forall|i: int| 0 <= i < names.len() ==> spec_plain_name(#[trigger] names[i]@),
    ensures
        forall|j: int|
            0 <= j < spec_bases_probes(
                ConfigPathMetadata::spec_root_bases(root, names, false),
                f,
            ).len() ==> !spec_dot_prefixed(
                #[trigger] spec_bases_probes(
                    ConfigPathMetadata::spec_root_bases(root, names, false),
                    f,
                )[j].0,
            ),
    decreases names.len(),
{
    if names.len() > 0 {
        let rb = ConfigPathMetadata::spec_root_bases(root, names, false);
        let rb2 = ConfigPathMetadata::spec_root_bases(root, names.drop_first(), false);
        assert(rb == ConfigPathMetadata::spec_expand_name(root, names[0]@, false) + rb2);
        assert(rb.len() > 0 && rb[0] == spec_join(root, names[0]@));
        assert(rb.drop_first() =~= rb2);
        let probes = spec_bases_probes(rb, f);
        let pc = spec_probe_candidates(rb[0], f);
        let rest = spec_bases_probes(rb2, f);
        assert(probes == pc + rest);
        lemma_base_probes_not_dotted(root, names[0]@, f);
        assert forall|i: int|
            0 <= i < names.drop_first().len() implies spec_plain_name(
            names.drop_first()[i]@,
        ) by {
            assert(names.drop_first()[i] == names[i + 1]);
        }
        lemma_root_probes_not_dotted(root, names.drop_first(), f);
        assert forall|j: int| 0 <= j < probes.len() implies !spec_dot_prefixed(probes[j].0) by {
            if j < pc.len() {
                assert(probes[j] == pc[j]);
            } else {
                assert(probes[j] == rest[j - pc.len()]);
            }
        }
    }
}

/// When dot-prefixed files are not allowed and the candidate names are
/// plain, no probe of the whole search is dot-prefixed.
pub proof fn lemma_search_probes_not_dotted(
    d: ConfigPathMetadata,
    sys_root: Seq<char>,
    local_root: Seq<char>,
)
    requires
        !d.config_option.allow_dot_prefix,
        d.extra_files@.len() == 0,
        d.extra_folders@.len() == 0,
        forall|i: int|
            0 <= i < d.config_name@.len() ==> spec_plain_name(#[trigger] d.config_name@[i]@),
    ensures
        forall|j: int|
            0 <= j < d.spec_search_probes(sys_root, local_root).len() ==> !spec_dot_prefixed(
                #[trigger] d.spec_search_probes(sys_root, local_root)[j].0,
            ),
{
    let names = d.config_name@;
    let f = d.default_format;
    let r1 = spec_first_root(d, sys_root, local_root);
    let r2 = spec_second_root(d, sys_root, local_root);
    let first = ConfigPathMetadata::spec_root_bases(r1, names, false);
    let second = ConfigPathMetadata::spec_root_bases(r2, names, false);
    let bases = d.spec_search_bases(sys_root, local_root);
    assert(bases =~= first + second);
    lemma_bases_probes_concat(first, second, f);
    let probes = d.spec_search_probes(sys_root, local_root);
    let probes_first = spec_bases_probes(first, f);
    let probes_second = spec_bases_probes(second, f);
    assert(probes == probes_first + probes_second);
    lemma_root_probes_not_dotted(r1, names, f);
    lemma_root_probes_not_dotted(r2, names, f);
    assert forall|j: int| 0 <= j < probes.len() implies !spec_dot_prefixed(probes[j].0) by {
        if j < probes_first.len() {
            assert(probes[j] == probes_first[j]);
        } else {
            assert(probes[j] == probes_second[j - probes_first.len()]);
        }
    }
}

/// When dot-prefixed files are not allowed and the candidate names are
/// plain, the search never resolves to a dot-prefixed file, whatever
/// exists on disk.
pub proof fn lemma_result_not_dot_prefixed(
    d: ConfigPathMetadata,
    sys_root: Seq<char>,
    local_root: Seq<char>,
    existing: Seq<Seq<char>>,
)
    requires
        !d.config_option.allow_dot_prefix,
        d.extra_files@.len() == 0,
        d.extra_folders@.len() == 0,
        forall|i: int|
            0 <= i < d.config_name@.len() ==> spec_plain_name(#[trigger] d.config_name@[i]@),
    ensures
        d.spec_search_result(sys_root, local_root, existing) matches Some(pf)
            ==> !spec_dot_prefixed(pf.0),
{
    lemma_search_probes_not_dotted(d, sys_root, local_root);
    let probes = d.spec_search_probes(sys_root, local_root);
    lemma_first_hit_characterization(probes, existing);
    let res = d.spec_search_result(sys_root, local_root, existing);
    if res is Some {
        let pf = res->Some_0;
        let i = choose|i: int|
            #![trigger probes[i]]
            0 <= i < probes.len() && probes[i] == pf && existing.contains(pf.0) && (forall|
                k: int,
            |
                0 <= k < i ==> !existing.contains(#[trigger] probes[k].0));
        assert(!spec_dot_prefixed(probes[i].0));
    }
}

/// When dot-prefixed files are not allowed, a search over plain candidate
/// names never matches a dot-prefixed file: if only dot-prefixed files
/// exist, the search finds nothing.
pub proof fn lemma_dot_prefix_never_matches(
    d: ConfigPathMetadata,
    sys_root: Seq<char>,
    local_root: Seq<char>,
    existing: Seq<Seq<char>>,
)
    requires
        !d.config_option.allow_dot_prefix,
        d.extra_files@.len() == 0,
        d.extra_folders@.len() == 0,
        forall|i: int|
            0 <= i < d.config_name@.len() ==> spec_plain_name(#[trigger] d.config_name@[i]@),
        forall|j: int| 0 <= j < existing.len() ==> spec_dot_prefixed(#[trigger] existing[j]),
    ensures
        d.spec_search_result(sys_root, local_root, existing) is None,
{
    lemma_search_probes_not_dotted(d, sys_root, local_root);
    let probes = d.spec_search_probes(sys_root, local_root);
    assert forall|j: int| 0 <= j < probes.len() implies !existing.contains(
        #[trigger] probes[j].0,
    ) by {
        assert(!spec_dot_prefixed(probes[j].0));
        if existing.contains(probes[j].0) {
            let idx = choose|idx: int|
                0 <= idx < existing.len() && existing[idx] == probes[j].0;
            assert(spec_dot_prefixed(existing[idx]));
        }
    }
    crate::parser::lemma_first_hit_none(probes, existing);
}

/// First-match semantics: when the search finds a probe, it is one whose
/// path exists, and every probe of strictly higher priority misses; when
/// it finds none, every probe misses.
pub proof fn lemma_first_hit_characterization(
    probes: Seq<(Seq<char>, FileFormat)>,
    existing: Seq<Seq<char>>,
)
    ensures
        match spec_first_hit(probes, existing) {
            Some(pf) => exists|i: int|
                #![trigger probes[i]]
                0 <= i < probes.len() && probes[i] == pf && existing.contains(pf.0) && (forall|
                    k: int,
                |
                    0 <= k < i ==> !existing.contains(#[trigger] probes[k].0)),
            None => forall|k: int|
                0 <= k < probes.len() ==> !existing.contains(#[trigger] probes[k].0),
        },
    decreases probes.len(),
{
    if probes.len() > 0 {
        if existing.contains(probes[0].0) {
            let pf = probes[0];
            assert(0 <= 0 < probes.len() && probes[0] == pf && existing.contains(pf.0) && (forall|
                k: int,
            |
                0 <= k < 0 ==> !existing.contains(#[trigger] probes[k].0)));
        } else {
            lemma_first_hit_characterization(probes.drop_first(), existing);
            let rest = probes.drop_first();
            match spec_first_hit(rest, existing) {
                Some(pf) => {
                    let j = choose|j: int|
                        #![trigger rest[j]]
                        0 <= j < rest.len() && rest[j] == pf && existing.contains(pf.0) && (forall|
                            k: int,
                        |
                            0 <= k < j ==> !existing.contains(#[trigger] rest[k].0));
                    assert(probes[j + 1] == pf);
                    assert(forall|k: int|
                        0 <= k < j + 1 ==> !existing.contains(#[trigger] probes[k].0)) by {
                        assert(forall|k: int| 1 <= k < j + 1 ==> probes[k] == rest[k - 1]);
                    }
                },
                None => {
                    assert(forall|k: int|
                        1 <= k < probes.len() ==> !existing.contains(
                            #[trigger] probes[k].0,
                        )) by {
                        assert(forall|k: int|
                            1 <= k < probes.len() ==> probes[k] == rest[k - 1]);
                    }
                },
            }
        }
    }
}

} // verus!

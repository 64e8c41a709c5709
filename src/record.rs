//! The source and target front-matter records, and the mapping between them.
use vstd::prelude::*;
use crate::dates::{normalize_date, normalized_date, opt_view};
use crate::scan::lines_view;

verus! {

/// A value written either as a single scalar or as a list of scalars.
#[derive(Debug)]
pub enum OneOrMany {
    One(String),
    Many(Vec<String>),
}

impl OneOrMany {
    /// The ordered list that the value stands for.
    pub open spec fn items(&self) -> Seq<Seq<char>> {
        match self {
            OneOrMany::One(s) => seq![s@],
            OneOrMany::Many(v) => lines_view(v@),
        }
    }

    /// The value as an ordered list: a scalar becomes a one-element list.
    pub fn into_list(self) -> (r: Vec<String>)
        ensures
            lines_view(r@) == self.items(),
    {
        match self {
            OneOrMany::One(s) => {
                let r = vec![s];
                proof {
                    assert(lines_view(r@) =~= self.items());
                }
                r
            },
            OneOrMany::Many(v) => v,
        }
    }
}

/// A lone scalar and a one-element list of that same scalar stand for the
/// same list.
pub proof fn lemma_scalar_is_singleton(s: String, v: Vec<String>)
    requires
        v@.len() == 1,
        v@[0]@ == s@,
    ensures
        OneOrMany::One(s).items() == OneOrMany::Many(v).items(),
{
    assert(OneOrMany::One(s).items() =~= OneOrMany::Many(v).items());
}

/// The decoded front matter of the source convention. Every field is
/// optional; keys of no declared field are not kept.
#[derive(Debug)]
pub struct SourceRecord {
    pub title: Option<String>,
    pub date: Option<String>,
    pub description: Option<String>,
    pub alias: Option<String>,
    pub categories: Option<OneOrMany>,
    pub tags: Option<Vec<String>>,
    pub draft: Option<bool>,
    pub slug: Option<String>,
    pub aliases: Option<OneOrMany>,
    pub lastmod: Option<String>,
    pub snapdate: Option<String>,
    pub photo_id: Option<String>,
    pub palette0: Option<String>,
    pub palette1: Option<String>,
    pub image: Option<String>,
    pub thumbnail: Option<String>,
}

/// The front matter of the target convention.
#[derive(Debug)]
pub struct TargetRecord {
    pub title: Option<String>,
    pub description: Option<String>,
    pub updated: Option<String>,
    pub date: Option<String>,
    pub draft: Option<bool>,
    pub slug: Option<String>,
    pub path: Option<String>,
    pub aliases: Option<Vec<String>>,
    /// Group name and terms of each taxonomy.
    pub taxonomies: Vec<(String, Vec<String>)>,
    /// Key and value of each field with no named slot, in a fixed key order.
    pub extra: Vec<(String, String)>,
}

/// The views of key-value entries.
pub open spec fn entries_view(v: Seq<(String, String)>) -> Seq<(Seq<char>, Seq<char>)> {
    v.map_values(|e: (String, String)| (e.0@, e.1@))
}

/// The entry that an optional field gives: one when present, none when absent.
pub open spec fn entry(key: Seq<char>, v: Option<String>) -> Seq<(Seq<char>, Seq<char>)> {
    match v {
        Some(x) => seq![(key, x@)],
        None => Seq::empty(),
    }
}

/// The extension entries of a source record, in a fixed key order.
pub open spec fn extra_of(src: SourceRecord) -> Seq<(Seq<char>, Seq<char>)> {
    entry("snapdate"@, src.snapdate) + entry("photo_id"@, src.photo_id) + entry(
        "palette0"@,
        src.palette0,
    ) + entry("palette1"@, src.palette1) + entry("image"@, src.image) + entry(
        "thumbnail"@,
        src.thumbnail,
    )
}

/// The value of the first entry under `key`.
pub open spec fn lookup(entries: Seq<(Seq<char>, Seq<char>)>, key: Seq<char>) -> Option<Seq<char>>
    decreases entries.len(),
{
    if entries.len() == 0 {
        None
    } else if entries[0].0 == key {
        Some(entries[0].1)
    } else {
        lookup(entries.drop_first(), key)
    }
}

/// The source field that a custom key names, if it names one.
pub open spec fn custom_field(src: SourceRecord, key: Seq<char>) -> Option<Seq<char>> {
    if key == "snapdate"@ {
        opt_view(src.snapdate)
    } else if key == "photo_id"@ {
        opt_view(src.photo_id)
    } else if key == "palette0"@ {
        opt_view(src.palette0)
    } else if key == "palette1"@ {
        opt_view(src.palette1)
    } else if key == "image"@ {
        opt_view(src.image)
    } else if key == "thumbnail"@ {
        opt_view(src.thumbnail)
    } else {
        None
    }
}

/// A date field normalized; a value of no accepted form counts as absent.
pub open spec fn date_field(v: Option<String>) -> Option<Seq<char>> {
    match v {
        Some(s) => normalized_date(s@),
        None => None,
    }
}

proof fn lemma_lookup_concat(a: Seq<(Seq<char>, Seq<char>)>, b: Seq<(Seq<char>, Seq<char>)>, key: Seq<char>)
    ensures
        lookup(a + b, key) == if lookup(a, key) is Some {
            lookup(a, key)
        } else {
            lookup(b, key)
        },
    decreases a.len(),
{
    if a.len() > 0 {
        assert((a + b).drop_first() =~= a.drop_first() + b);
        lemma_lookup_concat(a.drop_first(), b, key);
    } else {
        assert(a + b =~= b);
    }
}

/// No entry carries a key under which nothing is found.
pub proof fn lemma_lookup_none(entries: Seq<(Seq<char>, Seq<char>)>, key: Seq<char>)
    requires
        lookup(entries, key) is None,
    ensures
        forall|i: int| 0 <= i < entries.len() ==> (#[trigger] entries[i]).0 != key,
    decreases entries.len(),
{
    if entries.len() > 0 {
        lemma_lookup_none(entries.drop_first(), key);
        assert forall|i: int| 0 <= i < entries.len() implies (#[trigger] entries[i]).0 != key by {
            if i > 0 {
                assert(entries[i] == entries.drop_first()[i - 1]);
            }
        }
    }
}

proof fn lemma_lookup_entry(k: Seq<char>, v: Option<String>, key: Seq<char>)
    ensures
        lookup(entry(k, v), key) == if key == k {
            opt_view(v)
        } else {
            None
        },
{
    let e = entry(k, v);
    if v is Some {
        assert(e[0] == (k, v->0@));
        assert(e.drop_first().len() == 0);
        assert(lookup(e.drop_first(), key) is None);
    } else {
        assert(e.len() == 0);
    }
}

/// The extension entries hold, under each declared custom key, exactly the
/// source's value for it, and nothing under a key of an absent field or of no
/// declared field.
pub proof fn lemma_extra_holds_present_fields(src: SourceRecord)
    ensures
        forall|key: Seq<char>| lookup(extra_of(src), key) == #[trigger] custom_field(src, key),
        forall|key: Seq<char>, i: int|
            #![trigger custom_field(src, key), extra_of(src)[i]]
            custom_field(src, key) is None && 0 <= i < extra_of(src).len() ==> extra_of(src)[i].0
                != key,
        custom_field(src, "snapdate"@) == opt_view(src.snapdate),
        custom_field(src, "photo_id"@) == opt_view(src.photo_id),
        custom_field(src, "palette0"@) == opt_view(src.palette0),
        custom_field(src, "palette1"@) == opt_view(src.palette1),
        custom_field(src, "image"@) == opt_view(src.image),
        custom_field(src, "thumbnail"@) == opt_view(src.thumbnail),
{
    reveal_strlit("snapdate");
    reveal_strlit("photo_id");
    reveal_strlit("palette0");
    reveal_strlit("palette1");
    reveal_strlit("image");
    reveal_strlit("thumbnail");
    assert("snapdate"@[0] != "photo_id"@[0]);
    assert("snapdate"@[0] != "palette0"@[0]);
    assert("snapdate"@[0] != "palette1"@[0]);
    assert("photo_id"@[1] != "palette0"@[1]);
    assert("photo_id"@[1] != "palette1"@[1]);
    assert("palette0"@[7] != "palette1"@[7]);
    assert("snapdate"@ != "photo_id"@);
    assert("snapdate"@ != "palette0"@);
    assert("snapdate"@ != "palette1"@);
    assert("snapdate"@ != "image"@);
    assert("snapdate"@ != "thumbnail"@);
    assert("photo_id"@ != "palette0"@);
    assert("photo_id"@ != "palette1"@);
    assert("photo_id"@ != "image"@);
    assert("photo_id"@ != "thumbnail"@);
    assert("palette0"@ != "palette1"@);
    assert("palette0"@ != "image"@);
    assert("palette0"@ != "thumbnail"@);
    assert("palette1"@ != "image"@);
    assert("palette1"@ != "thumbnail"@);
    assert("image"@[0] != "thumbnail"@[0]);
    assert("image"@ != "thumbnail"@);
    assert forall|key: Seq<char>| lookup(extra_of(src), key) == #[trigger] custom_field(src, key) by {
        let e1 = entry("snapdate"@, src.snapdate);
        let e2 = entry("photo_id"@, src.photo_id);
        let e3 = entry("palette0"@, src.palette0);
        let e4 = entry("palette1"@, src.palette1);
        let e5 = entry("image"@, src.image);
        let e6 = entry("thumbnail"@, src.thumbnail);
        lemma_lookup_entry("snapdate"@, src.snapdate, key);
        lemma_lookup_entry("photo_id"@, src.photo_id, key);
        lemma_lookup_entry("palette0"@, src.palette0, key);
        lemma_lookup_entry("palette1"@, src.palette1, key);
        lemma_lookup_entry("image"@, src.image, key);
        lemma_lookup_entry("thumbnail"@, src.thumbnail, key);
        lemma_lookup_concat(e1, e2, key);
        lemma_lookup_concat(e1 + e2, e3, key);
        lemma_lookup_concat(e1 + e2 + e3, e4, key);
        lemma_lookup_concat(e1 + e2 + e3 + e4, e5, key);
        lemma_lookup_concat(e1 + e2 + e3 + e4 + e5, e6, key);
        assert(extra_of(src) == e1 + e2 + e3 + e4 + e5 + e6);
    }
    assert forall|key: Seq<char>, i: int|
        #![trigger custom_field(src, key), extra_of(src)[i]]
        custom_field(src, key) is None && 0 <= i < extra_of(src).len() implies extra_of(src)[i].0
            != key by {
        assert(lookup(extra_of(src), key) == custom_field(src, key));
        lemma_lookup_none(extra_of(src), key);
    }
}

/// Appends the entry of an optional field.
fn push_entry(extra: &mut Vec<(String, String)>, key: &str, v: Option<String>)
    ensures
        entries_view(final(extra)@) == entries_view(old(extra)@) + entry(key@, v),
{
    match v {
        Some(x) => {
            extra.push((String::from_str(key), x));
            proof {
                assert(entries_view(final(extra)@) =~= entries_view(old(extra)@) + entry(key@, v));
            }
        },
        None => {
            proof {
                assert(entries_view(final(extra)@) =~= entries_view(old(extra)@) + entry(key@, v));
            }
        },
    }
}

/// A normalized date field.
fn normalize_date_field(v: &Option<String>) -> (r: Option<String>)
    ensures
        opt_view(r) == date_field(*v),
{
    match v {
        Some(s) => normalize_date(s.as_str()),
        None => None,
    }
}

impl TargetRecord {
    /// Maps a source record onto the target schema. Categories and tags are
    /// not carried into taxonomies: the taxonomy map stays empty.
    pub fn from_source(src: SourceRecord) -> (r: TargetRecord)
        ensures
            r.title == src.title,
            r.description == src.description,
            r.draft == src.draft,
            r.slug == src.slug,
            r.path == src.alias,
            opt_view(r.date) == date_field(src.date),
            opt_view(r.updated) == date_field(
                if src.lastmod is Some {
                    src.lastmod
                } else {
                    src.date
                },
            ),
            match src.aliases {
                Some(a) => r.aliases is Some && lines_view(r.aliases->0@) == a.items(),
                None => r.aliases is None,
            },
            r.taxonomies@.len() == 0,
            entries_view(r.extra@) == extra_of(src),
    {
        let mut extra: Vec<(String, String)> = Vec::new();
        proof {
            assert(entries_view(extra@) =~= Seq::<(Seq<char>, Seq<char>)>::empty());
        }
        let ghost s = src;
        push_entry(&mut extra, "snapdate", src.snapdate);
        push_entry(&mut extra, "photo_id", src.photo_id);
        push_entry(&mut extra, "palette0", src.palette0);
        push_entry(&mut extra, "palette1", src.palette1);
        push_entry(&mut extra, "image", src.image);
        push_entry(&mut extra, "thumbnail", src.thumbnail);
        proof {
            assert(entries_view(extra@) =~= extra_of(s));
        }
        let date = normalize_date_field(&src.date);
        let updated = match src.lastmod {
            Some(m) => normalize_date(m.as_str()),
            None => normalize_date_field(&src.date),
        };
        let aliases = match src.aliases {
            Some(a) => Some(a.into_list()),
            None => None,
        };
        TargetRecord {
            title: src.title,
            description: src.description,
            updated,
            date,
            draft: src.draft,
            slug: src.slug,
            path: src.alias,
            aliases,
            taxonomies: Vec::new(),
            extra,
        }
    }
}

} // verus!

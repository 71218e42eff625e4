//! Properties of the store that hold for every theme and every query.
use vstd::prelude::*;
use crate::entry::EntryModel;
use crate::store::{
    file_default_spec, folder_default_spec, folder_entry, name_entry, shadow_insert, store_spec,
    suffix_from, table_spec, IconStore,
};
use crate::table::lookup_spec;
use crate::text::{
    ascii_lower, basename_spec, extension_spec, is_sep, last_dot, lemma_last_sep_unique,
    lemma_ascii_lower_idempotent, lower_char,
};
use crate::theme::{entry_model, RawEntry, RawTheme};

verus! {

/// Every key of a built table is the name of an override or its lowercased
/// form.
proof fn lemma_table_keys(entries: Seq<RawEntry>, x: Seq<char>)
    requires
        table_spec(entries).contains_key(x),
    ensures
        exists|j: int|
            0 <= j < entries.len() && (x == (#[trigger] entries[j]).name@ || x == ascii_lower(
                entries[j].name@,
            )),
    decreases entries.len(),
{
    let t = entries.drop_last();
    let last = entries.last();
    if x == last.name@ || x == ascii_lower(last.name@) {
        assert(entries[entries.len() - 1] == last);
    } else {
        assert(table_spec(t).contains_key(x));
        lemma_table_keys(t, x);
        let j = choose|j: int|
            0 <= j < t.len() && (x == (#[trigger] t[j]).name@ || x == ascii_lower(t[j].name@));
        assert(entries[j] == t[j]);
    }
}

/// A name whose lowercased form differs from that of every override is found
/// nowhere in the built table, in either case.
proof fn lemma_lookup_unmatched(entries: Seq<RawEntry>, x: Seq<char>)
    requires
        forall|j: int|
            0 <= j < entries.len() ==> ascii_lower((#[trigger] entries[j]).name@) != ascii_lower(x),
    ensures
        lookup_spec(table_spec(entries), x) is None,
{
    let m = table_spec(entries);
    lemma_ascii_lower_idempotent(x);
    if m.contains_key(x) {
        lemma_table_keys(entries, x);
        let j = choose|j: int|
            0 <= j < entries.len() && (x == (#[trigger] entries[j]).name@ || x == ascii_lower(
                entries[j].name@,
            ));
        lemma_ascii_lower_idempotent(entries[j].name@);
    }
    if m.contains_key(ascii_lower(x)) {
        lemma_table_keys(entries, ascii_lower(x));
        let j = choose|j: int|
            0 <= j < entries.len() && (ascii_lower(x) == (#[trigger] entries[j]).name@
                || ascii_lower(x) == ascii_lower(entries[j].name@));
        lemma_ascii_lower_idempotent(entries[j].name@);
    }
}

/// When the override `k` is the only one in its case class, the keys of that
/// class in the built table are its name and its lowercased name, and both
/// are bound to its entry.
proof fn lemma_table_class(entries: Seq<RawEntry>, k: int)
    requires
        0 <= k < entries.len(),
        forall|j: int|
            0 <= j < entries.len() && j != k ==> ascii_lower((#[trigger] entries[j]).name@)
                != ascii_lower(entries[k].name@),
    ensures
        table_spec(entries).contains_key(entries[k].name@),
        table_spec(entries).contains_key(ascii_lower(entries[k].name@)),
        forall|x: Seq<char>|
            #![trigger table_spec(entries).contains_key(x)]
            table_spec(entries).contains_key(x) && ascii_lower(x) == ascii_lower(entries[k].name@)
                ==> table_spec(entries)[x] == entry_model(entries[k]),
    decreases entries.len(),
{
    let n = entries[k].name@;
    let l = ascii_lower(n);
    let t = entries.drop_last();
    let last = entries.last();
    let m = table_spec(t);
    lemma_ascii_lower_idempotent(n);
    lemma_ascii_lower_idempotent(last.name@);
    if k == entries.len() - 1 {
        assert forall|x: Seq<char>| m.contains_key(x) implies ascii_lower(x) != l by {
            lemma_table_keys(t, x);
            let j = choose|j: int|
                0 <= j < t.len() && (x == (#[trigger] t[j]).name@ || x == ascii_lower(t[j].name@));
            assert(entries[j] == t[j]);
            lemma_ascii_lower_idempotent(t[j].name@);
        }
        assert(table_spec(entries) == shadow_insert(m, n, entry_model(last)));
    } else {
        assert forall|j: int| 0 <= j < t.len() && j != k implies ascii_lower((#[trigger] t[j]).name@)
            != ascii_lower(t[k].name@) by {
            assert(entries[j] == t[j]);
        }
        assert(t[k] == entries[k]);
        lemma_table_class(t, k);
        assert(ascii_lower(last.name@) != l);
        assert(table_spec(entries) == shadow_insert(m, last.name@, entry_model(last)));
    }
}

/// Looking up any ASCII casing variant of an override name finds the same
/// entry as the name itself, when no other override shares its case class.
pub proof fn law_lookup_case_insensitive(entries: Seq<RawEntry>, k: int, v: Seq<char>)
    requires
        0 <= k < entries.len(),
        forall|j: int|
            0 <= j < entries.len() && j != k ==> ascii_lower((#[trigger] entries[j]).name@)
                != ascii_lower(entries[k].name@),
        ascii_lower(v) == ascii_lower(entries[k].name@),
    ensures
        lookup_spec(table_spec(entries), v) == lookup_spec(table_spec(entries), entries[k].name@),
        entries[k].name@.len() > 0 ==> lookup_spec(table_spec(entries), entries[k].name@) == Some(
            entry_model(entries[k]),
        ),
{
    let m = table_spec(entries);
    let n = entries[k].name@;
    lemma_table_class(entries, k);
    lemma_ascii_lower_idempotent(n);
    assert(ascii_lower(v).len() == v.len());
    assert(ascii_lower(n).len() == n.len());
    if m.contains_key(v) {
        assert(m[v] == entry_model(entries[k]));
    }
}

/// The keys of a built table are exactly the override names and their
/// lowercased forms.
pub proof fn law_table_domain(entries: Seq<RawEntry>, x: Seq<char>)
    ensures
        table_spec(entries).contains_key(x) <==> exists|j: int|
            0 <= j < entries.len() && (x == (#[trigger] entries[j]).name@ || x == ascii_lower(
                entries[j].name@,
            )),
    decreases entries.len(),
{
    if table_spec(entries).contains_key(x) {
        lemma_table_keys(entries, x);
    }
    if entries.len() > 0 {
        let t = entries.drop_last();
        let last = entries.last();
        law_table_domain(t, x);
        if exists|j: int|
            0 <= j < entries.len() && (x == (#[trigger] entries[j]).name@ || x == ascii_lower(
                entries[j].name@,
            )) {
            let j = choose|j: int|
                0 <= j < entries.len() && (x == (#[trigger] entries[j]).name@ || x == ascii_lower(
                    entries[j].name@,
                ));
            if j < entries.len() - 1 {
                assert(t[j] == entries[j]);
                assert(table_spec(t).contains_key(x));
            }
        }
    }
}

proof fn lemma_basename_plain(s: Seq<char>)
    requires
        forall|i: int| 0 <= i < s.len() ==> !is_sep(#[trigger] s[i]),
    ensures
        basename_spec(s) == s,
{
    lemma_last_sep_unique(s, -1);
    assert(s.subrange(0, s.len() as int) =~= s);
}

proof fn lemma_variant_plain(n: Seq<char>, v: Seq<char>)
    requires
        ascii_lower(v) == ascii_lower(n),
        forall|i: int| 0 <= i < n.len() ==> !is_sep(#[trigger] n[i]),
    ensures
        forall|i: int| 0 <= i < v.len() ==> !is_sep(#[trigger] v[i]),
{
    assert(ascii_lower(v).len() == v.len());
    assert forall|i: int| 0 <= i < v.len() implies !is_sep(#[trigger] v[i]) by {
        assert(ascii_lower(v)[i] == lower_char(v[i]));
        assert(ascii_lower(n)[i] == lower_char(n[i]));
        assert(!is_sep(n[i]));
    }
}

/// A directory named by any ASCII casing variant of a configured directory
/// name resolves to the same entry as the name itself, provided no other
/// directory override shares its case class and the name holds no path
/// separator.
pub proof fn law_folder_case_insensitive(raw: RawTheme, k: int, v: Seq<char>)
    requires
        0 <= k < raw.icon.dirs@.len(),
        forall|j: int|
            0 <= j < raw.icon.dirs@.len() && j != k ==> ascii_lower(
                (#[trigger] raw.icon.dirs@[j]).name@,
            ) != ascii_lower(raw.icon.dirs@[k].name@),
        forall|i: int|
            0 <= i < raw.icon.dirs@[k].name@.len() ==> !is_sep(#[trigger] raw.icon.dirs@[k].name@[i]),
        ascii_lower(v) == ascii_lower(raw.icon.dirs@[k].name@),
    ensures
        folder_entry(store_spec(raw), v) == folder_entry(store_spec(raw), raw.icon.dirs@[k].name@),
        raw.icon.dirs@[k].name@.len() > 0 ==> folder_entry(store_spec(raw), v) == entry_model(
            raw.icon.dirs@[k],
        ),
{
    let n = raw.icon.dirs@[k].name@;
    lemma_variant_plain(n, v);
    lemma_basename_plain(n);
    lemma_basename_plain(v);
    law_lookup_case_insensitive(raw.icon.dirs@, k, v);
}

/// A file named by any ASCII casing variant of a configured file name
/// resolves to the same entry as the name itself, provided no other file
/// override shares its case class.
pub proof fn law_file_case_insensitive(raw: RawTheme, k: int, v: Seq<char>)
    requires
        0 <= k < raw.icon.files@.len(),
        forall|j: int|
            0 <= j < raw.icon.files@.len() && j != k ==> ascii_lower(
                (#[trigger] raw.icon.files@[j]).name@,
            ) != ascii_lower(raw.icon.files@[k].name@),
        ascii_lower(v) == ascii_lower(raw.icon.files@[k].name@),
    ensures
        name_entry(store_spec(raw), v) == name_entry(store_spec(raw), raw.icon.files@[k].name@),
        raw.icon.files@[k].name@.len() > 0 ==> name_entry(store_spec(raw), v) == entry_model(
            raw.icon.files@[k],
        ),
{
    let n = raw.icon.files@[k].name@;
    law_lookup_case_insensitive(raw.icon.files@, k, v);
    assert(ascii_lower(v).len() == v.len());
    assert(ascii_lower(n).len() == n.len());
    if n.len() == 0 {
        assert(v =~= n);
    }
}

proof fn lemma_suffix_none(m: Map<Seq<char>, EntryModel>, name: Seq<char>, i: int)
    requires
        0 <= i,
        forall|p: int|
            i <= p < name.len() - 1 && name[p] == '.' ==> (#[trigger] lookup_spec(
                m,
                name.subrange(p + 1, name.len() as int),
            )) is None,
    ensures
        suffix_from(m, name, i) is None,
    decreases name.len() - i,
{
    if i < name.len() {
        lemma_suffix_none(m, name, i + 1);
    }
}

proof fn lemma_last_dot_bounds(s: Seq<char>)
    ensures
        -1 <= last_dot(s) < s.len(),
        last_dot(s) >= 0 ==> s[last_dot(s)] == '.',
    decreases s.len(),
{
    if s.len() > 0 && s.last() != '.' {
        lemma_last_dot_bounds(s.drop_last());
    }
}

/// A file name that matches no file override and no extension override,
/// compared without ASCII case, neither as a whole nor in any text after one
/// of its dots, gets the file default.
pub proof fn law_unmatched_file_gets_default(raw: RawTheme, name: Seq<char>)
    requires
        forall|j: int|
            0 <= j < raw.icon.files@.len() ==> ascii_lower((#[trigger] raw.icon.files@[j]).name@)
                != ascii_lower(name),
        forall|j: int, p: int|
            0 <= j < raw.icon.exts@.len() && 0 <= p < name.len() && name[p] == '.' ==> ascii_lower(
                (#[trigger] raw.icon.exts@[j]).name@,
            ) != ascii_lower(#[trigger] name.subrange(p + 1, name.len() as int)),
    ensures
        name_entry(store_spec(raw), name) == file_default_spec(raw),
{
    let exts = raw.icon.exts@;
    lemma_lookup_unmatched(raw.icon.files@, name);
    assert forall|p: int| 0 <= p < name.len() - 1 && name[p] == '.' implies (#[trigger] lookup_spec(
        table_spec(exts),
        name.subrange(p + 1, name.len() as int),
    )) is None by {
        let c = name.subrange(p + 1, name.len() as int);
        assert forall|j: int| 0 <= j < exts.len() implies ascii_lower((#[trigger] exts[j]).name@)
            != ascii_lower(c) by {
            assert(ascii_lower(exts[j].name@) != ascii_lower(name.subrange(p + 1, name.len() as int)));
        }
        lemma_lookup_unmatched(exts, c);
    }
    lemma_suffix_none(table_spec(exts), name, 0);
    lemma_last_dot_bounds(name);
    let e = extension_spec(name);
    if last_dot(name) > 0 {
        let p = last_dot(name);
        assert forall|j: int| 0 <= j < exts.len() implies ascii_lower((#[trigger] exts[j]).name@)
            != ascii_lower(e) by {
            assert(ascii_lower(exts[j].name@) != ascii_lower(name.subrange(p + 1, name.len() as int)));
        }
        lemma_lookup_unmatched(exts, e);
    }
}

/// With no directory, file or extension overrides, every file gets the file
/// default and every directory the directory default.
pub proof fn law_no_overrides_gives_defaults(raw: RawTheme, name: Seq<char>)
    requires
        raw.icon.dirs@.len() == 0,
        raw.icon.files@.len() == 0,
        raw.icon.exts@.len() == 0,
    ensures
        name_entry(store_spec(raw), name) == file_default_spec(raw),
        folder_entry(store_spec(raw), name) == folder_default_spec(raw),
{
    let m = store_spec(raw);
    assert(m.dirs == Map::<Seq<char>, EntryModel>::empty());
    assert(m.files == Map::<Seq<char>, EntryModel>::empty());
    assert(m.exts == Map::<Seq<char>, EntryModel>::empty());
    lemma_suffix_none(m.exts, name, 0);
}

/// Two stores built from the same theme document hold the same entries and
/// answer every query alike.
pub proof fn law_build_deterministic(raw: RawTheme, a: IconStore, b: IconStore)
    requires
        a@ == store_spec(raw),
        b@ == store_spec(raw),
    ensures
        a@ == b@,
        forall|name: Seq<char>| #[trigger]
            name_entry(a@, name) == name_entry(b@, name),
        forall|name: Seq<char>| #[trigger]
            folder_entry(a@, name) == folder_entry(b@, name),
{
}

} // verus!

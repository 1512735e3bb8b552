//! The rules of the file index: looking up, removing and choosing entries, and
//! how an entry is shown and matched against a search.

use vstd::prelude::*;
use vstd::string::*;
use vstd::utf8::{decode_utf8, encode_utf8, encode_utf8_decode_utf8, is_char_boundary};
use crate::data::{FileEntry, FileEntryView};
use crate::text::{contains_text, lowercase, lowercase_text, occurs_in, prefixed};

verus! {

/// The first entry with this id, if there is one.
pub open spec fn first_with_id(entries: Seq<FileEntryView>, id: Seq<char>) -> Option<
    FileEntryView,
>
    decreases entries.len(),
{
    if entries.len() == 0 {
        None
    } else if entries[0].id == id {
        Some(entries[0])
    } else {
        first_with_id(entries.drop_first(), id)
    }
}

/// The entries without those that have this id, the others in their order.
pub open spec fn without_id(entries: Seq<FileEntryView>, id: Seq<char>) -> Seq<FileEntryView>
    decreases entries.len(),
{
    if entries.len() == 0 {
        Seq::empty()
    } else if entries.last().id == id {
        without_id(entries.drop_last(), id)
    } else {
        without_id(entries.drop_last(), id).push(entries.last())
    }
}

/// The entries without those that have one of these ids.
pub open spec fn without_ids(entries: Seq<FileEntryView>, ids: Seq<Seq<char>>) -> Seq<
    FileEntryView,
>
    decreases ids.len(),
{
    if ids.len() == 0 {
        entries
    } else {
        without_id(without_ids(entries, ids.drop_last()), ids.last())
    }
}

/// For each of these ids that the index knows, the first entry with it, in
/// the order of the ids.
pub open spec fn entries_with_ids(entries: Seq<FileEntryView>, ids: Seq<Seq<char>>) -> Seq<
    FileEntryView,
>
    decreases ids.len(),
{
    if ids.len() == 0 {
        Seq::empty()
    } else {
        match first_with_id(entries, ids.last()) {
            Some(entry) => entries_with_ids(entries, ids.drop_last()).push(entry),
            None => entries_with_ids(entries, ids.drop_last()),
        }
    }
}

/// The name under which a download is saved: the name of the entry with
/// this id, or a name made from the id where the index does not know it.
pub open spec fn download_name_of(entries: Seq<FileEntryView>, id: Seq<char>) -> Seq<char> {
    match first_with_id(entries, id) {
        Some(entry) => entry.name,
        None => "downloaded_file_"@ + id,
    }
}

/// Whether an id can be shown in the list: it takes at most ten bytes, or
/// its tenth byte ends a character.
pub open spec fn can_be_shown(id: Seq<char>) -> bool {
    encode_utf8(id).len() <= 10 || is_char_boundary(encode_utf8(id), 10)
}

/// How an id is shown in the list: whole where it takes at most ten bytes,
/// else the characters of its first ten bytes and three dots.
pub open spec fn shown_id(id: Seq<char>) -> Seq<char> {
    if encode_utf8(id).len() > 10 {
        decode_utf8(encode_utf8(id).subrange(0, 10)) + "..."@
    } else {
        id
    }
}

/// After the removal no entry has the id, every entry that is left was
/// there before, and nothing was added.
pub proof fn lemma_without_id(entries: Seq<FileEntryView>, id: Seq<char>)
    ensures
        forall|i: int|
            0 <= i < without_id(entries, id).len() ==> (#[trigger] without_id(entries, id)[i]).id
                != id && entries.contains(without_id(entries, id)[i]),
        without_id(entries, id).len() <= entries.len(),
        first_with_id(without_id(entries, id), id) is None,
    decreases entries.len(),
{
    if entries.len() > 0 {
        let rest = entries.drop_last();
        lemma_without_id(rest, id);
        let kept = without_id(entries, id);
        assert forall|i: int| 0 <= i < kept.len() implies (#[trigger] kept[i]).id != id
            && entries.contains(kept[i]) by {
            if i < without_id(rest, id).len() {
                let found = without_id(rest, id)[i];
                assert(rest.contains(found));
                let k = choose|k: int| 0 <= k < rest.len() && rest[k] == found;
                assert(entries[k] == found);
            } else {
                assert(kept[i] == entries[entries.len() - 1]);
            }
        }
    }
    lemma_first_with_id_none(without_id(entries, id), id);
}

/// No entry is found exactly where no entry has the id.
pub proof fn lemma_first_with_id_none(entries: Seq<FileEntryView>, id: Seq<char>)
    ensures
        first_with_id(entries, id) is None <==> forall|i: int|
            0 <= i < entries.len() ==> (#[trigger] entries[i]).id != id,
        first_with_id(entries, id) matches Some(entry) ==> entry.id == id && entries.contains(
            entry,
        ),
    decreases entries.len(),
{
    if entries.len() > 0 {
        let rest = entries.drop_first();
        lemma_first_with_id_none(rest, id);
        if entries[0].id != id {
            if first_with_id(rest, id) is None {
                assert forall|i: int| 0 <= i < entries.len() implies (#[trigger] entries[i]).id
                    != id by {
                    if i > 0 {
                        assert(entries[i] == rest[i - 1]);
                    }
                }
            } else {
                let entry = first_with_id(rest, id)->Some_0;
                let k = choose|k: int| 0 <= k < rest.len() && rest[k] == entry;
                assert(entries[k + 1] == entry);
            }
        } else {
            assert(entries.contains(entries[0]));
        }
    }
}

/// Finds the entry with this id.
pub fn find_entry<'a>(files: &'a Vec<FileEntry>, id: &str) -> (found: Option<&'a FileEntry>)
    ensures
        found.deep_view() == first_with_id(files.deep_view(), id@),
{
    let ghost all = files.deep_view();
    let mut i: usize = 0;
    proof {
        assert(all.subrange(0, all.len() as int) =~= all);
    }
    while i < files.len()
        invariant
            i <= files.len(),
            all == files.deep_view(),
            first_with_id(all, id@) == first_with_id(all.subrange(i as int, all.len() as int), id@),
        decreases files.len() - i,
    {
        let ghost rest = all.subrange(i as int, all.len() as int);
        proof {
            assert(rest.drop_first() =~= all.subrange(i + 1, all.len() as int));
        }
        if files[i].id.as_str().eq(id) {
            return Some(&files[i]);
        }
        i += 1;
    }
    None
}

/// Takes the entries with this id out of the index.
pub fn remove_entry(files: Vec<FileEntry>, id: &str) -> (kept: Vec<FileEntry>)
    ensures
        kept.deep_view() == without_id(files.deep_view(), id@),
{
    let ghost all = files.deep_view();
    let ghost items = files@;
    let mut kept: Vec<FileEntry> = Vec::new();
    for entry in iter: files
        invariant
            iter.seq() == items,
            all.len() == items.len(),
            forall|j: int| 0 <= j < items.len() ==> all[j] == items[j].deep_view(),
            kept.deep_view() == without_id(all.subrange(0, iter.index()), id@),
    {
        let ghost upto = all.subrange(0, iter.index() + 1);
        proof {
            assert(upto.drop_last() =~= all.subrange(0, iter.index()));
        }
        if !entry.id.as_str().eq(id) {
            kept.push(entry);
        }
    }
    proof {
        assert(all.subrange(0, all.len() as int) =~= all);
    }
    kept
}

/// Takes the entries with one of these ids out of the index.
pub fn remove_entries(files: Vec<FileEntry>, ids: &Vec<String>) -> (kept: Vec<FileEntry>)
    ensures
        kept.deep_view() == without_ids(files.deep_view(), ids.deep_view()),
{
    let ghost all = files.deep_view();
    let ghost names = ids.deep_view();
    let mut kept = files;
    let mut i: usize = 0;
    while i < ids.len()
        invariant
            i <= ids.len(),
            names == ids.deep_view(),
            kept.deep_view() == without_ids(all, names.subrange(0, i as int)),
        decreases ids.len() - i,
    {
        let ghost upto = names.subrange(0, i + 1);
        proof {
            assert(upto.drop_last() =~= names.subrange(0, i as int));
        }
        kept = remove_entry(kept, ids[i].as_str());
        i += 1;
    }
    proof {
        assert(names.subrange(0, names.len() as int) =~= names);
    }
    kept
}

/// Copies an entry.
pub fn copy_entry(entry: &FileEntry) -> (copy: FileEntry)
    ensures
        copy.deep_view() == entry.deep_view(),
{
    FileEntry {
        id: entry.id.clone(),
        name: entry.name.clone(),
        uploaded_at: entry.uploaded_at.clone(),
    }
}

/// Picks, for each of these ids that the index knows, the entry with it.
pub fn entries_for(files: &Vec<FileEntry>, ids: &Vec<String>) -> (chosen: Vec<FileEntry>)
    ensures
        chosen.deep_view() == entries_with_ids(files.deep_view(), ids.deep_view()),
{
    let ghost names = ids.deep_view();
    let mut chosen: Vec<FileEntry> = Vec::new();
    let mut i: usize = 0;
    while i < ids.len()
        invariant
            i <= ids.len(),
            names == ids.deep_view(),
            chosen.deep_view() == entries_with_ids(files.deep_view(), names.subrange(0, i as int)),
        decreases ids.len() - i,
    {
        let ghost upto = names.subrange(0, i + 1);
        proof {
            assert(upto.drop_last() =~= names.subrange(0, i as int));
        }
        if let Some(entry) = find_entry(files, ids[i].as_str()) {
            chosen.push(copy_entry(entry));
        }
        i += 1;
    }
    proof {
        assert(names.subrange(0, names.len() as int) =~= names);
    }
    chosen
}

/// Names the file that a download of this id is saved as.
pub fn download_name(files: &Vec<FileEntry>, id: &str) -> (name: String)
    ensures
        name@ == download_name_of(files.deep_view(), id@),
{
    match find_entry(files, id) {
        Some(entry) => entry.name.clone(),
        None => prefixed("downloaded_file_", id),
    }
}

/// Tells whether an id can be shown in the list.
pub fn displayable(id: &str) -> (fine: bool)
    ensures
        fine == can_be_shown(id@),
{
    id.as_bytes().len() <= 10 || id.is_char_boundary(10)
}

/// Shortens an id for the list. An id of more than ten bytes whose tenth
/// byte lies within a character cannot be cut there and is left out.
pub fn display_id(id: &str) -> (shown: String)
    requires
        can_be_shown(id@),
    ensures
        shown@ == shown_id(id@),
{
    if id.as_bytes().len() > 10 {
        let (head, _) = id.split_at(10);
        proof {
            encode_utf8_decode_utf8(head@);
        }
        String::from_str(head).concat("...")
    } else {
        String::from_str(id)
    }
}

/// The texts without those equal to `text`, the others in their order.
pub open spec fn without_text(texts: Seq<Seq<char>>, text: Seq<char>) -> Seq<Seq<char>>
    decreases texts.len(),
{
    if texts.len() == 0 {
        Seq::empty()
    } else if texts.last() == text {
        without_text(texts.drop_last(), text)
    } else {
        without_text(texts.drop_last(), text).push(texts.last())
    }
}

/// The selection after an id has been chosen: as before where the id was
/// selected already, else with the id at its end.
pub open spec fn with_selected(selected: Seq<Seq<char>>, id: Seq<char>) -> Seq<Seq<char>> {
    if selected.contains(id) {
        selected
    } else {
        selected.push(id)
    }
}

/// Removing a text leaves none equal to it, and keeps a list without
/// repetition free of it.
pub proof fn lemma_without_text(texts: Seq<Seq<char>>, text: Seq<char>)
    ensures
        !without_text(texts, text).contains(text),
        forall|other: Seq<char>|
            other != text ==> (#[trigger] without_text(texts, text).contains(other)
                <==> texts.contains(other)),
        texts.no_duplicates() ==> without_text(texts, text).no_duplicates(),
    decreases texts.len(),
{
    if texts.len() > 0 {
        let rest = texts.drop_last();
        let last = texts.last();
        lemma_without_text(rest, text);
        let head = without_text(rest, text);
        let kept = without_text(texts, text);
        assert forall|other: Seq<char>| other != text implies (#[trigger] kept.contains(other)
            <==> texts.contains(other)) by {
            if kept.contains(other) {
                let k = choose|k: int| 0 <= k < kept.len() && kept[k] == other;
                if k < head.len() {
                    assert(head[k] == other);
                    assert(head.contains(other));
                    assert(rest.contains(other));
                    let j = choose|j: int| 0 <= j < rest.len() && rest[j] == other;
                    assert(texts[j] == other);
                } else {
                    assert(texts[texts.len() - 1] == other);
                }
            }
            if texts.contains(other) {
                let j = choose|j: int| 0 <= j < texts.len() && texts[j] == other;
                if j < rest.len() {
                    assert(rest[j] == other);
                    assert(rest.contains(other));
                    assert(head.contains(other));
                    let k = choose|k: int| 0 <= k < head.len() && head[k] == other;
                    assert(kept[k] == other);
                } else {
                    assert(last == other);
                    assert(kept[kept.len() - 1] == other);
                }
            }
        }
        if kept.contains(text) {
            let k = choose|k: int| 0 <= k < kept.len() && kept[k] == text;
            if k < head.len() {
                assert(head[k] == text);
                assert(head.contains(text));
            }
        }
        if texts.no_duplicates() {
            assert forall|i: int, j: int| 0 <= i < j < rest.len() implies rest[i] != rest[j] by {
                assert(texts[i] != texts[j]);
            }
            assert(rest.no_duplicates());
            if last != text {
                assert forall|i: int, j: int| 0 <= i < j < kept.len() implies kept[i]
                    != kept[j] by {
                    if j == head.len() {
                        assert(head[i] == kept[i]);
                        if kept[i] == last {
                            assert(head.contains(last));
                            assert(rest.contains(last));
                            let r = choose|r: int| 0 <= r < rest.len() && rest[r] == last;
                            assert(texts[r] == texts[texts.len() - 1]);
                        }
                    } else {
                        assert(head[i] != head[j]);
                    }
                }
            }
        }
    }
}

/// Choosing an id keeps a selection without repetition free of it.
pub proof fn lemma_with_selected(selected: Seq<Seq<char>>, id: Seq<char>)
    requires
        selected.no_duplicates(),
    ensures
        with_selected(selected, id).no_duplicates(),
        with_selected(selected, id).contains(id),
{
    let chosen = with_selected(selected, id);
    if !selected.contains(id) {
        assert(chosen[chosen.len() - 1] == id);
        assert forall|i: int, j: int| 0 <= i < j < chosen.len() implies chosen[i] != chosen[j] by {
            if j == selected.len() {
                if chosen[i] == id {
                    assert(selected[i] == id);
                    assert(selected.contains(id));
                }
            } else {
                assert(selected[i] != selected[j]);
            }
        }
    }
}

/// Tells whether the id is selected.
pub fn is_selected(selected: &Vec<String>, id: &str) -> (chosen: bool)
    ensures
        chosen == selected.deep_view().contains(id@),
{
    let ghost all = selected.deep_view();
    let mut i: usize = 0;
    while i < selected.len()
        invariant
            i <= selected.len(),
            all == selected.deep_view(),
            forall|j: int| 0 <= j < i ==> all[j] != id@,
        decreases selected.len() - i,
    {
        if selected[i].as_str().eq(id) {
            proof {
                assert(all[i as int] == id@);
            }
            return true;
        }
        i += 1;
    }
    false
}

/// Adds an id to the selection unless it is selected already.
pub fn select(selected: Vec<String>, id: String) -> (chosen: Vec<String>)
    ensures
        chosen.deep_view() == with_selected(selected.deep_view(), id@),
{
    if is_selected(&selected, id.as_str()) {
        selected
    } else {
        let mut chosen = selected;
        chosen.push(id);
        chosen
    }
}

/// Takes an id out of the selection.
pub fn deselect(selected: Vec<String>, id: &str) -> (chosen: Vec<String>)
    ensures
        chosen.deep_view() == without_text(selected.deep_view(), id@),
{
    let ghost all = selected.deep_view();
    let ghost items = selected@;
    let mut chosen: Vec<String> = Vec::new();
    for item in iter: selected
        invariant
            iter.seq() == items,
            all.len() == items.len(),
            forall|j: int| 0 <= j < items.len() ==> all[j] == items[j]@,
            chosen.deep_view() == without_text(all.subrange(0, iter.index()), id@),
    {
        let ghost upto = all.subrange(0, iter.index() + 1);
        proof {
            assert(upto.drop_last() =~= all.subrange(0, iter.index()));
        }
        if !item.as_str().eq(id) {
            chosen.push(item);
        }
    }
    proof {
        assert(all.subrange(0, all.len() as int) =~= all);
    }
    chosen
}

/// Whether an entry matches a search: the search, letter case aside, stands
/// in the name or in the id.
pub open spec fn matches_search(entry: FileEntryView, search: Seq<char>) -> bool {
    occurs_in(lowercase_text(search), lowercase_text(entry.name)) || occurs_in(
        lowercase_text(search),
        lowercase_text(entry.id),
    )
}

/// The entries that match a search, in their order.
pub open spec fn matching(entries: Seq<FileEntryView>, search: Seq<char>) -> Seq<FileEntryView>
    decreases entries.len(),
{
    if entries.len() == 0 {
        Seq::empty()
    } else if matches_search(entries.last(), search) {
        matching(entries.drop_last(), search).push(entries.last())
    } else {
        matching(entries.drop_last(), search)
    }
}

/// Tells whether an entry matches a search.
pub fn entry_matches(entry: &FileEntry, search: &str) -> (matches: bool)
    ensures
        matches == matches_search(entry.deep_view(), search@),
{
    let wanted = lowercase(search);
    let name = lowercase(entry.name.as_str());
    if contains_text(name.as_str(), wanted.as_str()) {
        true
    } else {
        let id = lowercase(entry.id.as_str());
        contains_text(id.as_str(), wanted.as_str())
    }
}

/// Picks the entries that a search shows.
pub fn visible_entries<'a>(files: &'a Vec<FileEntry>, search: &str) -> (shown: Vec<&'a FileEntry>)
    ensures
        shown.deep_view() == matching(files.deep_view(), search@),
{
    let ghost all = files.deep_view();
    let mut shown: Vec<&FileEntry> = Vec::new();
    let mut i: usize = 0;
    while i < files.len()
        invariant
            i <= files.len(),
            all == files.deep_view(),
            shown.deep_view() == matching(all.subrange(0, i as int), search@),
        decreases files.len() - i,
    {
        let ghost upto = all.subrange(0, i + 1);
        proof {
            assert(upto.drop_last() =~= all.subrange(0, i as int));
        }
        if entry_matches(&files[i], search) {
            shown.push(&files[i]);
        }
        i += 1;
    }
    proof {
        assert(all.subrange(0, all.len() as int) =~= all);
    }
    shown
}

} // verus!

//! Directory trees and the members of an archive.
//!
//! The caller lists a directory into a tree of plain values; the functions
//! here total it, count it and lay it out as the members of an archive,
//! each under its path relative to the root of the tree.

use crate::error::EngineError;
use vstd::prelude::*;

verus! {

/// One entry of a directory listing.
pub enum DirectoryEntry {
    /// A regular file of `size` bytes.
    File { name: String, size: u64 },
    /// A subdirectory with its own entries.
    Directory { name: String, entries: Vec<DirectoryEntry> },
}

/// One member of an archive: the components of its path relative to the
/// root of the archived tree, and its size in bytes.
pub struct ArchiveMember {
    pub path: Vec<String>,
    pub size: u64,
}

/// What an archive member holds.
pub ghost struct MemberView {
    pub path: Seq<Seq<char>>,
    pub size: u64,
}

/// The components of a path as plain text.
pub open spec fn path_view(path: Seq<String>) -> Seq<Seq<char>> {
    path.map_values(|component: String| component@)
}

impl View for ArchiveMember {
    type V = MemberView;

    open spec fn view(&self) -> MemberView {
        MemberView { path: path_view(self.path@), size: self.size }
    }
}

/// The members of a list as plain values.
pub open spec fn members_view(members: Seq<ArchiveMember>) -> Seq<MemberView> {
    members.map_values(|member: ArchiveMember| member@)
}

/// The total length of the regular files at and below `entry`.
pub open spec fn entry_size(entry: DirectoryEntry) -> nat
    decreases entry,
{
    match entry {
        DirectoryEntry::File { size, .. } => size as nat,
        DirectoryEntry::Directory { entries, .. } => entries_size(entries@),
    }
}

/// The total length of the regular files at and below `entries`.
pub open spec fn entries_size(entries: Seq<DirectoryEntry>) -> nat
    decreases entries,
{
    if entries.len() == 0 {
        0
    } else {
        entries_size(entries.drop_last()) + entry_size(entries.last())
    }
}

/// The number of regular files at and below `entry`.
pub open spec fn entry_files(entry: DirectoryEntry) -> nat
    decreases entry,
{
    match entry {
        DirectoryEntry::File { .. } => 1,
        DirectoryEntry::Directory { entries, .. } => entries_files(entries@),
    }
}

/// The number of regular files at and below `entries`.
pub open spec fn entries_files(entries: Seq<DirectoryEntry>) -> nat
    decreases entries,
{
    if entries.len() == 0 {
        0
    } else {
        entries_files(entries.drop_last()) + entry_files(entries.last())
    }
}

/// The archive members that `entry`, found in the directory `prefix`,
/// contributes: itself if it is a regular file, and what its entries
/// contribute if it is a directory.
pub open spec fn entry_members(prefix: Seq<Seq<char>>, entry: DirectoryEntry) -> Seq<MemberView>
    decreases entry,
{
    match entry {
        DirectoryEntry::File { name, size } => seq![
            MemberView { path: prefix.push(name@), size },
        ],
        DirectoryEntry::Directory { name, entries } => entries_members(
            prefix.push(name@),
            entries@,
        ),
    }
}

/// The archive members that the entries of the directory `prefix`
/// contribute, in the order of the listing, each subdirectory in full
/// before the entry that follows it.
pub open spec fn entries_members(prefix: Seq<Seq<char>>, entries: Seq<DirectoryEntry>) -> Seq<
    MemberView,
>
    decreases entries,
{
    if entries.len() == 0 {
        Seq::empty()
    } else {
        entries_members(prefix, entries.drop_last()) + entry_members(prefix, entries.last())
    }
}

/// The total length of the members of a list.
pub open spec fn members_size(members: Seq<MemberView>) -> nat
    decreases members.len(),
{
    if members.len() == 0 {
        0
    } else {
        members_size(members.drop_last()) + members.last().size as nat
    }
}

/// A count as it is reported: itself where it fits in 64 bits, a refusal
/// where it does not.
pub open spec fn checked_total(total: nat) -> Result<u64, EngineError> {
    if total <= u64::MAX {
        Ok(total as u64)
    } else {
        Err(EngineError::TooLarge)
    }
}

/// The name under which a file of an explicit list is stored: its bare file
/// name, or a fixed one where its path has none.
pub open spec fn member_name(file_name: Option<Seq<char>>) -> Seq<char> {
    match file_name {
        Some(name) => name,
        None => "file"@,
    }
}

/// The totals of a listing grow entry by entry.
pub proof fn lemma_entries_step(prefix: Seq<Seq<char>>, entries: Seq<DirectoryEntry>, i: int)
    requires
        0 <= i < entries.len(),
    ensures
        entries_size(entries.take(i + 1)) == entries_size(entries.take(i)) + entry_size(
            entries[i],
        ),
        entries_files(entries.take(i + 1)) == entries_files(entries.take(i)) + entry_files(
            entries[i],
        ),
        entries_members(prefix, entries.take(i + 1)) == entries_members(prefix, entries.take(i))
            + entry_members(prefix, entries[i]),
{
    assert(entries.take(i + 1).drop_last() =~= entries.take(i));
    assert(entries.take(i + 1).last() == entries[i]);
}

/// The totals of a part of a listing are at most those of the whole.
pub proof fn lemma_entries_prefix(entries: Seq<DirectoryEntry>, i: int)
    requires
        0 <= i <= entries.len(),
    ensures
        entries_size(entries.take(i)) <= entries_size(entries),
        entries_files(entries.take(i)) <= entries_files(entries),
    decreases entries.len() - i,
{
    if i < entries.len() {
        lemma_entries_prefix(entries, i + 1);
        lemma_entries_step(Seq::empty(), entries, i);
    } else {
        assert(entries.take(i) =~= entries);
    }
}

/// The total length of two lists of members laid end to end is the sum of
/// their totals.
pub proof fn lemma_members_size_concat(first: Seq<MemberView>, second: Seq<MemberView>)
    ensures
        members_size(first + second) == members_size(first) + members_size(second),
    decreases second.len(),
{
    if second.len() == 0 {
        assert(first + second =~= first);
    } else {
        lemma_members_size_concat(first, second.drop_last());
        assert((first + second).drop_last() =~= first + second.drop_last());
        assert((first + second).last() == second.last());
    }
}

/// The members laid out for one entry are as many as the regular files at
/// and below it, total what they total, and lie below the directory the
/// entry was found in.
pub proof fn lemma_entry_members(prefix: Seq<Seq<char>>, entry: DirectoryEntry)
    ensures
        entry_members(prefix, entry).len() == entry_files(entry),
        members_size(entry_members(prefix, entry)) == entry_size(entry),
        forall|k: int|
            0 <= k < entry_members(prefix, entry).len() ==> {
                let path = (#[trigger] entry_members(prefix, entry)[k]).path;
                path.len() > prefix.len() && path.take(prefix.len() as int) == prefix
            },
    decreases entry,
{
    match entry {
        DirectoryEntry::File { name, size } => {
            let only = MemberView { path: prefix.push(name@), size };
            assert(entry_members(prefix, entry) =~= seq![only]);
            assert(seq![only].drop_last() =~= Seq::<MemberView>::empty());
            assert(members_size(seq![only]) == size) by {
                reveal_with_fuel(members_size, 2);
            }
            assert(prefix.push(name@).take(prefix.len() as int) =~= prefix);
        },
        DirectoryEntry::Directory { name, entries } => {
            let deeper = prefix.push(name@);
            lemma_entries_members(deeper, entries@);
            assert forall|k: int| 0 <= k < entry_members(prefix, entry).len() implies {
                let path = (#[trigger] entry_members(prefix, entry)[k]).path;
                path.len() > prefix.len() && path.take(prefix.len() as int) == prefix
            } by {
                let path = entries_members(deeper, entries@)[k].path;
                assert(path.take(deeper.len() as int) == deeper);
                assert(path.take(prefix.len() as int) =~= path.take(deeper.len() as int).take(
                    prefix.len() as int,
                ));
                assert(deeper.take(prefix.len() as int) =~= prefix);
            }
        },
    }
}

/// The members laid out for a listing are as many as the regular files at
/// and below it, total what they total, and lie below the directory that
/// was listed.
pub proof fn lemma_entries_members(prefix: Seq<Seq<char>>, entries: Seq<DirectoryEntry>)
    ensures
        entries_members(prefix, entries).len() == entries_files(entries),
        members_size(entries_members(prefix, entries)) == entries_size(entries),
        forall|k: int|
            0 <= k < entries_members(prefix, entries).len() ==> {
                let path = (#[trigger] entries_members(prefix, entries)[k]).path;
                path.len() > prefix.len() && path.take(prefix.len() as int) == prefix
            },
    decreases entries,
{
    if entries.len() > 0 {
        lemma_entries_members(prefix, entries.drop_last());
        lemma_entry_members(prefix, entries.last());
        lemma_members_size_concat(
            entries_members(prefix, entries.drop_last()),
            entry_members(prefix, entries.last()),
        );
    }
}

/// Totals the regular files of a directory tree.
pub fn calculate_dir_size(entries: &Vec<DirectoryEntry>) -> (outcome: Result<u64, EngineError>)
    ensures
        outcome == checked_total(entries_size(entries@)),
    decreases entries,
{
    let mut total: u64 = 0;
    let mut i: usize = 0;
    while i < entries.len()
        invariant
            i <= entries.len(),
            total == entries_size(entries@.take(i as int)),
        decreases entries.len() - i,
    {
        proof {
            lemma_entries_step(Seq::empty(), entries@, i as int);
            lemma_entries_prefix(entries@, i + 1);
        }
        let below: u64 = match &entries[i] {
            DirectoryEntry::File { size, .. } => *size,
            DirectoryEntry::Directory { entries: inner, .. } => match calculate_dir_size(inner) {
                Ok(below) => below,
                Err(e) => {
                    return Err(e);
                },
            },
        };
        total = match total.checked_add(below) {
            Some(sum) => sum,
            None => {
                return Err(EngineError::TooLarge);
            },
        };
        i = i + 1;
    }
    proof {
        assert(entries@.take(entries.len() as int) =~= entries@);
    }
    Ok(total)
}

/// Counts the regular files of a directory tree.
pub fn count_files_in_dir(entries: &Vec<DirectoryEntry>) -> (outcome: Result<u64, EngineError>)
    ensures
        outcome == checked_total(entries_files(entries@)),
    decreases entries,
{
    let mut count: u64 = 0;
    let mut i: usize = 0;
    while i < entries.len()
        invariant
            i <= entries.len(),
            count == entries_files(entries@.take(i as int)),
        decreases entries.len() - i,
    {
        proof {
            lemma_entries_step(Seq::empty(), entries@, i as int);
            lemma_entries_prefix(entries@, i + 1);
        }
        let below: u64 = match &entries[i] {
            DirectoryEntry::File { .. } => 1,
            DirectoryEntry::Directory { entries: inner, .. } => match count_files_in_dir(inner) {
                Ok(below) => below,
                Err(e) => {
                    return Err(e);
                },
            },
        };
        count = match count.checked_add(below) {
            Some(sum) => sum,
            None => {
                return Err(EngineError::TooLarge);
            },
        };
        i = i + 1;
    }
    proof {
        assert(entries@.take(entries.len() as int) =~= entries@);
    }
    Ok(count)
}

/// The path of the entry called `name` in the directory `prefix`.
fn child_path(prefix: &Vec<String>, name: &String) -> (path: Vec<String>)
    ensures
        path_view(path@) == path_view(prefix@).push(name@),
{
    let mut path: Vec<String> = Vec::new();
    let mut i: usize = 0;
    while i < prefix.len()
        invariant
            i <= prefix.len(),
            path_view(path@) == path_view(prefix@).take(i as int),
        decreases prefix.len() - i,
    {
        let component = prefix[i].clone();
        let ghost before = path@;
        path.push(component);
        proof {
            assert(path_view(path@) =~= path_view(before).push(prefix@[i as int]@));
            assert(path_view(prefix@).take(i + 1) =~= path_view(prefix@).take(i as int).push(
                prefix@[i as int]@,
            ));
        }
        i = i + 1;
    }
    let ghost before = path@;
    path.push(name.clone());
    proof {
        assert(path_view(prefix@).take(prefix.len() as int) =~= path_view(prefix@));
        assert(path_view(path@) =~= path_view(before).push(name@));
    }
    path
}

/// Lays the regular files of a directory tree out as archive members,
/// appending them to `members`: each under its path relative to the root
/// of the tree, in the order of the listing, each subdirectory in full
/// before the entry that follows it. `prefix` is the path of the listed
/// directory relative to the root.
pub fn add_dir_to_tar(
    members: &mut Vec<ArchiveMember>,
    prefix: &Vec<String>,
    entries: &Vec<DirectoryEntry>,
)
    ensures
        members_view(final(members)@) == members_view(old(members)@) + entries_members(
            path_view(prefix@),
            entries@,
        ),
    decreases entries,
{
    let mut i: usize = 0;
    proof {
        assert(members_view(members@) + Seq::<MemberView>::empty() =~= members_view(members@));
    }
    while i < entries.len()
        invariant
            i <= entries.len(),
            members_view(members@) == members_view(old(members)@) + entries_members(
                path_view(prefix@),
                entries@.take(i as int),
            ),
        decreases entries.len() - i,
    {
        proof {
            lemma_entries_step(path_view(prefix@), entries@, i as int);
        }
        let ghost before = members@;
        match &entries[i] {
            DirectoryEntry::File { name, size } => {
                let member = ArchiveMember { path: child_path(prefix, name), size: *size };
                members.push(member);
                proof {
                    assert(members_view(members@) =~= members_view(before).push(member@));
                    assert(members_view(before).push(member@) =~= members_view(before)
                        + entry_members(path_view(prefix@), entries@[i as int]));
                }
            },
            DirectoryEntry::Directory { name, entries: inner } => {
                let deeper = child_path(prefix, name);
                add_dir_to_tar(members, &deeper, inner);
            },
        }
        proof {
            let done = entries_members(path_view(prefix@), entries@.take(i as int));
            let step = entry_members(path_view(prefix@), entries@[i as int]);
            assert((members_view(old(members)@) + done) + step =~= members_view(old(members)@) + (
            done + step));
        }
        i = i + 1;
    }
    proof {
        assert(entries@.take(entries.len() as int) =~= entries@);
    }
}

/// The name under which a file of an explicit list is stored in the
/// archive.
pub fn archive_member_name(file_name: Option<&str>) -> (name: String)
    ensures
        name@ == member_name(
            match file_name {
                Some(n) => Some(n@),
                None => None,
            },
        ),
{
    match file_name {
        Some(name) => name.to_owned(),
        None => "file".to_owned(),
    }
}

} // verus!

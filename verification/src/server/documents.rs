//! Team documents: the metadata that the server keeps of each body, how it is
//! read out of a body, and the index of all documents.
//!
//! A body is a JSON object owned by the client. The server reads a handful of
//! its members to maintain the index and rewrites a few of them when a
//! document is locked, shared or handed to a new owner. Reading and writing
//! files is left to the caller: the operations here take what was read and
//! say what is to be written.

use vstd::prelude::*;
use vstd::string::*;
use crate::json::{
    error_text, flag_at, from_items, from_number, from_text, get_flag, get_items, get_number,
    get_text, items_at, json_is_object, json_items, json_member, json_parsed, json_rendered, null,
    number_at, object, parse, put_number, put_opt_flag, put_opt_number, put_opt_text, put_text,
    render, set_member, text_at,
};
use crate::keyed::{
    as_map, distinct_keys, has_key, lemma_as_map_at, lemma_as_map_empty, lemma_as_map_push,
    lemma_as_map_remove, lemma_as_map_update, position, Keyed,
};
use crate::text::{clone_opt, concat_str, opt_view, starts_with, str_eq, with_detail};
use crate::server::protocol::{entries_view, ShareEntry, ShareEntryView};

verus! {

/// One entry of a document's share list.
#[derive(Debug)]
pub struct DocumentShare {
    pub user_id: String,
    pub user_name: String,
    pub permission: String,
    pub shared_at: u64,
}

/// The model of a [`DocumentShare`].
pub ghost struct DocumentShareView {
    pub user_id: Seq<char>,
    pub user_name: Seq<char>,
    pub permission: Seq<char>,
    pub shared_at: u64,
}

impl View for DocumentShare {
    type V = DocumentShareView;

    open spec fn view(&self) -> DocumentShareView {
        DocumentShareView {
            user_id: self.user_id@,
            user_name: self.user_name@,
            permission: self.permission@,
            shared_at: self.shared_at,
        }
    }
}

impl Clone for DocumentShare {
    fn clone(&self) -> (r: Self)
        ensures
            r == *self,
    {
        DocumentShare {
            user_id: self.user_id.clone(),
            user_name: self.user_name.clone(),
            permission: self.permission.clone(),
            shared_at: self.shared_at,
        }
    }
}

/// The models of the entries of a share list.
pub open spec fn shares_view(s: Seq<DocumentShare>) -> Seq<DocumentShareView> {
    Seq::new(s.len(), |i: int| s[i]@)
}

/// The model of an optional share list.
pub open spec fn opt_shares_view(o: Option<Vec<DocumentShare>>) -> Option<Seq<DocumentShareView>> {
    match o {
        Some(v) => Some(shares_view(v@)),
        None => None,
    }
}

/// A copy of a share list.
pub fn clone_shares(v: &Vec<DocumentShare>) -> (r: Vec<DocumentShare>)
    ensures
        r@ == v@,
        shares_view(r@) == shares_view(v@),
{
    let mut r: Vec<DocumentShare> = Vec::new();
    let mut i: usize = 0;
    while i < v.len()
        invariant
            i <= v.len(),
            r@ == v@.take(i as int),
        decreases v.len() - i,
    {
        r.push(v[i].clone());
        assert(v@.take(i + 1) =~= v@.take(i as int).push(v@[i as int]));
        i += 1;
    }
    assert(v@.take(v.len() as int) =~= v@);
    r
}

/// What the index keeps of a document.
#[derive(Debug)]
pub struct DocumentMetadata {
    pub id: String,
    pub name: String,
    pub page_count: usize,
    pub modified_at: u64,
    pub created_at: u64,
    pub is_team_document: Option<bool>,
    pub locked_by: Option<String>,
    pub locked_by_name: Option<String>,
    pub locked_at: Option<u64>,
    pub owner_id: Option<String>,
    pub owner_name: Option<String>,
    pub shared_with: Option<Vec<DocumentShare>>,
    pub last_modified_by: Option<String>,
    pub last_modified_by_name: Option<String>,
}

/// The model of a [`DocumentMetadata`].
pub ghost struct DocumentMetadataView {
    pub id: Seq<char>,
    pub name: Seq<char>,
    pub page_count: usize,
    pub modified_at: u64,
    pub created_at: u64,
    pub is_team_document: Option<bool>,
    pub locked_by: Option<Seq<char>>,
    pub locked_by_name: Option<Seq<char>>,
    pub locked_at: Option<u64>,
    pub owner_id: Option<Seq<char>>,
    pub owner_name: Option<Seq<char>>,
    pub shared_with: Option<Seq<DocumentShareView>>,
    pub last_modified_by: Option<Seq<char>>,
    pub last_modified_by_name: Option<Seq<char>>,
}

impl View for DocumentMetadata {
    type V = DocumentMetadataView;

    open spec fn view(&self) -> DocumentMetadataView {
        DocumentMetadataView {
            id: self.id@,
            name: self.name@,
            page_count: self.page_count,
            modified_at: self.modified_at,
            created_at: self.created_at,
            is_team_document: self.is_team_document,
            locked_by: opt_view(self.locked_by),
            locked_by_name: opt_view(self.locked_by_name),
            locked_at: self.locked_at,
            owner_id: opt_view(self.owner_id),
            owner_name: opt_view(self.owner_name),
            shared_with: opt_shares_view(self.shared_with),
            last_modified_by: opt_view(self.last_modified_by),
            last_modified_by_name: opt_view(self.last_modified_by_name),
        }
    }
}

impl Clone for DocumentMetadata {
    fn clone(&self) -> (r: Self)
        ensures
            r@ == self@,
    {
        let shared_with = match &self.shared_with {
            Some(v) => Some(clone_shares(v)),
            None => None,
        };
        DocumentMetadata {
            id: self.id.clone(),
            name: self.name.clone(),
            page_count: self.page_count,
            modified_at: self.modified_at,
            created_at: self.created_at,
            is_team_document: self.is_team_document,
            locked_by: clone_opt(&self.locked_by),
            locked_by_name: clone_opt(&self.locked_by_name),
            locked_at: self.locked_at,
            owner_id: clone_opt(&self.owner_id),
            owner_name: clone_opt(&self.owner_name),
            shared_with,
            last_modified_by: clone_opt(&self.last_modified_by),
            last_modified_by_name: clone_opt(&self.last_modified_by_name),
        }
    }
}

impl Keyed for DocumentMetadata {
    open spec fn key(&self) -> Seq<char> {
        self.id@
    }

    fn key_str(&self) -> (r: &str) {
        self.id.as_str()
    }
}

/// The share entry that a JSON value stands for: an object whose members
/// `userId`, `userName` and `permission` are strings and whose member
/// `sharedAt` is an unsigned integer.
pub open spec fn share_of_json(v: serde_json::Value) -> Option<DocumentShareView> {
    if text_at(v, "userId"@) is Some && text_at(v, "userName"@) is Some && text_at(
        v,
        "permission"@,
    ) is Some && number_at(v, "sharedAt"@) is Some {
        Some(
            DocumentShareView {
                user_id: text_at(v, "userId"@)->0,
                user_name: text_at(v, "userName"@)->0,
                permission: text_at(v, "permission"@)->0,
                shared_at: number_at(v, "sharedAt"@)->0,
            },
        )
    } else {
        None
    }
}

/// The share list that a JSON array stands for, provided every element is a
/// share entry.
pub open spec fn shares_of_json(list: Seq<serde_json::Value>) -> Option<Seq<DocumentShareView>> {
    if forall|i: int| 0 <= i < list.len() ==> (#[trigger] share_of_json(list[i])) is Some {
        Some(Seq::new(list.len(), |i: int| share_of_json(list[i])->0))
    } else {
        None
    }
}

/// The share entries among the elements of a JSON array, in their order;
/// elements that are no share entry are passed over.
pub open spec fn shares_among_json(list: Seq<serde_json::Value>) -> Seq<DocumentShareView>
    decreases list.len(),
{
    if list.len() == 0 {
        Seq::empty()
    } else {
        let rest = shares_among_json(list.drop_last());
        match share_of_json(list.last()) {
            Some(s) => rest.push(s),
            None => rest,
        }
    }
}

/// The metadata that the server derives from a body, with `now` standing in
/// for a missing `modifiedAt`; `None` where the body has no text `id` or an
/// empty one.
pub open spec fn metadata_of(doc: serde_json::Value, now: u64) -> Option<DocumentMetadataView> {
    match text_at(doc, "id"@) {
        Some(id) => if id.len() == 0 {
            None
        } else {
            let modified_at = match number_at(doc, "modifiedAt"@) {
                Some(t) => t,
                None => now,
            };
            Some(
                DocumentMetadataView {
                    id,
                    name: match text_at(doc, "name"@) {
                        Some(n) => n,
                        None => "Untitled"@,
                    },
                    page_count: match items_at(doc, "pageOrder"@) {
                        Some(pages) => pages.len() as usize,
                        None => 1,
                    },
                    modified_at,
                    created_at: match number_at(doc, "createdAt"@) {
                        Some(t) => t,
                        None => modified_at,
                    },
                    is_team_document: flag_at(doc, "isTeamDocument"@),
                    locked_by: text_at(doc, "lockedBy"@),
                    locked_by_name: text_at(doc, "lockedByName"@),
                    locked_at: number_at(doc, "lockedAt"@),
                    owner_id: text_at(doc, "ownerId"@),
                    owner_name: text_at(doc, "ownerName"@),
                    shared_with: match items_at(doc, "sharedWith"@) {
                        Some(list) => shares_of_json(list),
                        None => None,
                    },
                    last_modified_by: text_at(doc, "lastModifiedBy"@),
                    last_modified_by_name: text_at(doc, "lastModifiedByName"@),
                },
            )
        },
        None => None,
    }
}

/// Reads one share entry out of a JSON value.
pub fn parse_share(v: &serde_json::Value) -> (r: Option<DocumentShare>)
    ensures
        match r {
            Some(s) => share_of_json(*v) == Some(s@),
            None => share_of_json(*v) is None,
        },
{
    let user_id = get_text(v, "userId");
    let user_name = get_text(v, "userName");
    let permission = get_text(v, "permission");
    let shared_at = get_number(v, "sharedAt");
    match (user_id, user_name, permission, shared_at) {
        (Some(user_id), Some(user_name), Some(permission), Some(shared_at)) => Some(
            DocumentShare { user_id, user_name, permission, shared_at },
        ),
        _ => None,
    }
}

/// Reads a share list out of a JSON array; one element that is no share entry
/// makes the whole list unreadable.
pub fn parse_shares(list: &Vec<serde_json::Value>) -> (r: Option<Vec<DocumentShare>>)
    ensures
        opt_shares_view(r) == shares_of_json(list@),
{
    let mut out: Vec<DocumentShare> = Vec::new();
    let mut i: usize = 0;
    while i < list.len()
        invariant
            i <= list.len(),
            out.len() == i,
            forall|j: int|
                #![trigger share_of_json(list[j])]
                #![trigger out[j]]
                0 <= j < i ==> share_of_json(list[j]) == Some(out[j]@),
        decreases list.len() - i,
    {
        match parse_share(&list[i]) {
            Some(s) => {
                out.push(s);
            },
            None => {
                return None;
            },
        }
        i += 1;
    }
    assert(shares_view(out@) =~= shares_of_json(list@)->0);
    Some(out)
}

/// Reads the share entries out of a JSON array, passing over the elements
/// that are none.
pub fn parse_shares_among(list: &Vec<serde_json::Value>) -> (r: Vec<DocumentShare>)
    ensures
        shares_view(r@) == shares_among_json(list@),
{
    let mut out: Vec<DocumentShare> = Vec::new();
    let mut i: usize = 0;
    while i < list.len()
        invariant
            i <= list.len(),
            shares_view(out@) == shares_among_json(list@.take(i as int)),
        decreases list.len() - i,
    {
        let ghost before = out@;
        assert(list@.take(i + 1).drop_last() =~= list@.take(i as int));
        assert(list@.take(i + 1).last() == list@[i as int]);
        match parse_share(&list[i]) {
            Some(s) => {
                out.push(s);
                assert(shares_view(out@) =~= shares_view(before).push(s@));
            },
            None => {},
        }
        i += 1;
    }
    assert(list@.take(list.len() as int) =~= list@);
    out
}

/// Derives the metadata of a body. `now` is the current time in milliseconds
/// and is used where the body carries no `modifiedAt`.
pub fn extract_metadata(doc: &serde_json::Value, now: u64) -> (r: Option<DocumentMetadata>)
    ensures
        match r {
            Some(m) => metadata_of(*doc, now) == Some(m@),
            None => metadata_of(*doc, now) is None,
        },
{
    let id = match get_text(doc, "id") {
        Some(id) => id,
        None => {
            return None;
        },
    };
    if id.as_str().is_empty() {
        return None;
    }
    let name = match get_text(doc, "name") {
        Some(n) => n,
        None => "Untitled".to_owned(),
    };
    let page_count: usize = match get_items(doc, "pageOrder") {
        Some(pages) => pages.len(),
        None => 1,
    };
    let modified_at: u64 = match get_number(doc, "modifiedAt") {
        Some(t) => t,
        None => now,
    };
    let created_at: u64 = match get_number(doc, "createdAt") {
        Some(t) => t,
        None => modified_at,
    };
    let shared_with = match get_items(doc, "sharedWith") {
        Some(list) => parse_shares(list),
        None => None,
    };
    Some(
        DocumentMetadata {
            id,
            name,
            page_count,
            modified_at,
            created_at,
            is_team_document: get_flag(doc, "isTeamDocument"),
            locked_by: get_text(doc, "lockedBy"),
            locked_by_name: get_text(doc, "lockedByName"),
            locked_at: get_number(doc, "lockedAt"),
            owner_id: get_text(doc, "ownerId"),
            owner_name: get_text(doc, "ownerName"),
            shared_with,
            last_modified_by: get_text(doc, "lastModifiedBy"),
            last_modified_by_name: get_text(doc, "lastModifiedByName"),
        },
    )
}

/// Makes known what the member names that the server reads and writes are
/// made of, so that two of them can be told apart.
proof fn reveal_member_names()
    ensures
        "id"@ == seq!['i', 'd'],
        "name"@ == seq!['n', 'a', 'm', 'e'],
        "pageOrder"@.len() == 9 && "pageOrder"@[0] == 'p',
        "modifiedAt"@.len() == 10 && "modifiedAt"@[0] == 'm',
        "createdAt"@.len() == 9 && "createdAt"@[0] == 'c',
        "isTeamDocument"@.len() == 14 && "isTeamDocument"@[0] == 'i',
        "lockedBy"@.len() == 8 && "lockedBy"@[0] == 'l' && "lockedBy"@[6] == 'B',
        "lockedByName"@.len() == 12 && "lockedByName"@[0] == 'l',
        "lockedAt"@.len() == 8 && "lockedAt"@[0] == 'l' && "lockedAt"@[6] == 'A',
        "ownerId"@.len() == 7 && "ownerId"@[0] == 'o',
        "ownerName"@.len() == 9 && "ownerName"@[0] == 'o',
        "sharedWith"@.len() == 10 && "sharedWith"@[0] == 's',
        "lastModifiedBy"@.len() == 14 && "lastModifiedBy"@[0] == 'l',
        "lastModifiedByName"@.len() == 18,
        "userId"@.len() == 6 && "userId"@[4] == 'I',
        "userName"@.len() == 8 && "userName"@[0] == 'u',
        "permission"@.len() == 10 && "permission"@[0] == 'p',
        "sharedAt"@.len() == 8 && "sharedAt"@[0] == 's',
{
    reveal_strlit("id");
    reveal_strlit("name");
    reveal_strlit("pageOrder");
    reveal_strlit("modifiedAt");
    reveal_strlit("createdAt");
    reveal_strlit("isTeamDocument");
    reveal_strlit("lockedBy");
    reveal_strlit("lockedByName");
    reveal_strlit("lockedAt");
    reveal_strlit("ownerId");
    reveal_strlit("ownerName");
    reveal_strlit("sharedWith");
    reveal_strlit("lastModifiedBy");
    reveal_strlit("lastModifiedByName");
    reveal_strlit("userId");
    reveal_strlit("userName");
    reveal_strlit("permission");
    reveal_strlit("sharedAt");
}

/// Writes a share entry as a JSON object.
pub fn share_to_json(share: &DocumentShare) -> (r: serde_json::Value)
    ensures
        share_of_json(r) == Some(share@),
{
    proof {
        reveal_member_names();
    }
    let mut r = object();
    set_member(&mut r, "userId", from_text(share.user_id.as_str()));
    set_member(&mut r, "userName", from_text(share.user_name.as_str()));
    set_member(&mut r, "permission", from_text(share.permission.as_str()));
    set_member(&mut r, "sharedAt", from_number(share.shared_at));
    r
}

/// Where every element of a JSON array is a share entry, passing over the
/// others passes over none.
pub proof fn lemma_shares_among_all(list: Seq<serde_json::Value>)
    requires
        shares_of_json(list) is Some,
    ensures
        shares_among_json(list) == shares_of_json(list)->0,
    decreases list.len(),
{
    if list.len() > 0 {
        let front = list.drop_last();
        assert forall|i: int| 0 <= i < front.len() implies (#[trigger] share_of_json(
            front[i],
        )) is Some by {
            assert(front[i] == list[i]);
        }
        lemma_shares_among_all(front);
        assert(share_of_json(list[list.len() - 1]) is Some);
        assert(shares_among_json(list) =~= shares_of_json(list)->0);
    } else {
        assert(shares_among_json(list) =~= shares_of_json(list)->0);
    }
}

/// Writes a share list as a JSON array of objects.
pub fn shares_to_json(shares: &Vec<DocumentShare>) -> (r: serde_json::Value)
    ensures
        json_items(r) is Some,
        shares_of_json(json_items(r)->0) == Some(shares_view(shares@)),
{
    let mut list: Vec<serde_json::Value> = Vec::new();
    let mut i: usize = 0;
    while i < shares.len()
        invariant
            i <= shares.len(),
            list.len() == i,
            forall|j: int|
                #![trigger share_of_json(list[j])]
                0 <= j < i ==> share_of_json(list[j]) == Some(shares[j]@),
        decreases shares.len() - i,
    {
        list.push(share_to_json(&shares[i]));
        i += 1;
    }
    assert(shares_of_json(list@)->0 =~= shares_view(shares@));
    from_items(list)
}

/// `after` has the members of `before`, but for those named in `changed`.
pub open spec fn same_members_except(
    before: serde_json::Value,
    after: serde_json::Value,
    changed: Set<Seq<char>>,
) -> bool {
    forall|k: Seq<char>| !changed.contains(k) ==> json_member(after, k) == json_member(before, k)
}

/// The members that a lock writes.
pub open spec fn lock_members() -> Set<Seq<char>> {
    set!["lockedBy"@, "lockedByName"@, "lockedAt"@]
}

/// The members that a change of the share list writes.
pub open spec fn share_members() -> Set<Seq<char>> {
    set!["sharedWith"@]
}

/// The members that a change of owner writes.
pub open spec fn owner_members() -> Set<Seq<char>> {
    set!["ownerId"@, "ownerName"@, "sharedWith"@]
}

/// The name under which a lock is recorded when the holder gave none.
pub open spec fn lock_holder_name(user_name: Option<&str>) -> Seq<char> {
    match user_name {
        Some(n) => n@,
        None => "Unknown"@,
    }
}

/// Whether `after` is the body `before` with a lock written into it, or
/// taken out of it where `user_id` is `None`: still an object, the three
/// lock members changed together, nothing else changed.
pub open spec fn lock_applied(
    before: serde_json::Value,
    after: serde_json::Value,
    user_id: Option<&str>,
    user_name: Option<&str>,
    now: u64,
) -> bool {
    &&& json_is_object(after)
    &&& same_members_except(before, after, lock_members())
    &&& match user_id {
        Some(uid) => {
            &&& text_at(after, "lockedBy"@) == Some(uid@)
            &&& text_at(after, "lockedByName"@) == Some(lock_holder_name(user_name))
            &&& number_at(after, "lockedAt"@) == Some(now)
        },
        None => {
            &&& text_at(after, "lockedBy"@) is None
            &&& text_at(after, "lockedByName"@) is None
            &&& number_at(after, "lockedAt"@) is None
        },
    }
}

/// Writes a lock into a body, or takes it out where `user_id` is `None`.
/// The three lock members change together; nothing else does.
pub fn apply_lock(
    doc: &mut serde_json::Value,
    user_id: Option<&str>,
    user_name: Option<&str>,
    now: u64,
)
    requires
        json_is_object(*old(doc)),
    ensures
        lock_applied(*old(doc), *final(doc), user_id, user_name, now),
{
    proof {
        reveal_member_names();
    }
    match user_id {
        Some(uid) => {
            let name = match user_name {
                Some(n) => n,
                None => "Unknown",
            };
            set_member(doc, "lockedBy", from_text(uid));
            set_member(doc, "lockedByName", from_text(name));
            set_member(doc, "lockedAt", from_number(now));
        },
        None => {
            set_member(doc, "lockedBy", null());
            set_member(doc, "lockedByName", null());
            set_member(doc, "lockedAt", null());
        },
    }
}

/// The share list that a request asks for: its entries in order, without
/// those whose permission is `none`, each stamped with `now`.
pub open spec fn requested_shares(entries: Seq<ShareEntryView>, now: u64) -> Seq<
    DocumentShareView,
> {
    entries.filter(grants_access()).map_values(stamped(now))
}

/// The test that tells the entries that grant access from those that
/// withdraw it.
pub open spec fn grants_access() -> spec_fn(ShareEntryView) -> bool {
    |e: ShareEntryView| e.permission != "none"@
}

/// The step from a requested entry to the entry stored, shared at `now`.
pub open spec fn stamped(now: u64) -> spec_fn(ShareEntryView) -> DocumentShareView {
    |e: ShareEntryView|
        DocumentShareView {
            user_id: e.user_id,
            user_name: e.user_name,
            permission: e.permission,
            shared_at: now,
        }
}

/// Builds the share list that a request asks for.
pub fn build_shares(entries: &Vec<ShareEntry>, now: u64) -> (r: Vec<DocumentShare>)
    ensures
        shares_view(r@) == requested_shares(entries_view(entries@), now),
{
    let ghost keep = grants_access();
    let ghost stamp = stamped(now);
    let ghost all = entries_view(entries@);
    let mut out: Vec<DocumentShare> = Vec::new();
    let mut i: usize = 0;
    proof {
        assert(all.take(0) =~= Seq::<ShareEntryView>::empty());
        assert(all.take(0).filter(keep) =~= Seq::<ShareEntryView>::empty());
        assert(shares_view(out@) =~= all.take(0).filter(keep).map_values(stamp));
    }
    while i < entries.len()
        invariant
            i <= entries.len(),
            all == entries_view(entries@),
            keep == grants_access(),
            stamp == stamped(now),
            shares_view(out@) == all.take(i as int).filter(keep).map_values(stamp),
        decreases entries.len() - i,
    {
        let ghost before = out@;
        let e = &entries[i];
        proof {
            assert(all.take(i + 1) =~= all.take(i as int).push(all[i as int]));
            Seq::lemma_filter_push(all.take(i as int), all[i as int], keep);
        }
        if !str_eq(e.permission.as_str(), "none") {
            out.push(
                DocumentShare {
                    user_id: e.user_id.clone(),
                    user_name: e.user_name.clone(),
                    permission: e.permission.clone(),
                    shared_at: now,
                },
            );
            assert(shares_view(out@) =~= shares_view(before).push(stamp(all[i as int])));
            assert(all.take(i + 1).filter(keep).map_values(stamp) =~= all.take(i as int).filter(
                keep,
            ).map_values(stamp).push(stamp(all[i as int])));
        }
        i += 1;
    }
    assert(all.take(entries.len() as int) =~= all);
    out
}

/// Whether `after` is the body `before` with the share list `shares`
/// written into it: still an object, `sharedWith` an array that stands for
/// the list, nothing else changed.
pub open spec fn shares_applied(
    before: serde_json::Value,
    after: serde_json::Value,
    shares: Seq<DocumentShareView>,
) -> bool {
    &&& json_is_object(after)
    &&& same_members_except(before, after, share_members())
    &&& items_at(after, "sharedWith"@) is Some
    &&& shares_of_json(items_at(after, "sharedWith"@)->0) == Some(shares)
    &&& current_shares(after) == shares
}

/// Writes a share list into a body. Nothing but `sharedWith` changes.
pub fn apply_shares(doc: &mut serde_json::Value, shares: &Vec<DocumentShare>)
    requires
        json_is_object(*old(doc)),
    ensures
        shares_applied(*old(doc), *final(doc), shares_view(shares@)),
{
    set_member(doc, "sharedWith", shares_to_json(shares));
    proof {
        lemma_shares_among_all(items_at(*doc, "sharedWith"@)->0);
    }
}

/// The share entries that a body carries, read leniently: none where
/// `sharedWith` is no array.
pub open spec fn current_shares(doc: serde_json::Value) -> Seq<DocumentShareView> {
    match items_at(doc, "sharedWith"@) {
        Some(list) => shares_among_json(list),
        None => Seq::empty(),
    }
}

/// The name under which a previous owner enters the share list.
pub open spec fn previous_owner_name(doc: serde_json::Value) -> Seq<char> {
    match text_at(doc, "lastModifiedByName"@) {
        Some(n) => n,
        None => "Previous Owner"@,
    }
}

/// Whether some entry of a share list belongs to `user_id`.
pub open spec fn shares_mention(shares: Seq<DocumentShareView>, user_id: Seq<char>) -> bool {
    exists|i: int| 0 <= i < shares.len() && (#[trigger] shares[i]).user_id == user_id
}

/// The test that tells the entries of third users from those of `a` and of
/// `b`.
pub open spec fn neither_of(a: Seq<char>, b: Seq<char>) -> spec_fn(DocumentShareView) -> bool {
    |s: DocumentShareView| s.user_id != a && s.user_id != b
}

/// The entry `e` with the permission `edit`.
pub open spec fn raised(e: DocumentShareView) -> DocumentShareView {
    DocumentShareView { permission: "edit"@, ..e }
}

/// The entry with which a previous owner who had none joins a share list.
pub open spec fn entry_of_previous_owner(
    previous_owner: Seq<char>,
    previous_name: Seq<char>,
    now: u64,
) -> DocumentShareView {
    DocumentShareView {
        user_id: previous_owner,
        user_name: previous_name,
        permission: "edit"@,
        shared_at: now,
    }
}

/// A share list settled for a change of owner, entry by entry and in its
/// order: the entries of the new owner are dropped; of the entries that the
/// previous owner then has, the first is raised to `edit` and the later ones
/// are dropped; the entries of third users stay as they are.
pub open spec fn settled_shares(
    current: Seq<DocumentShareView>,
    new_owner: Seq<char>,
    previous_owner: Seq<char>,
) -> Seq<DocumentShareView>
    decreases current.len(),
{
    if current.len() == 0 {
        Seq::empty()
    } else {
        let before = settled_shares(current.drop_last(), new_owner, previous_owner);
        let e = current.last();
        if e.user_id == new_owner {
            before
        } else if e.user_id != previous_owner {
            before.push(e)
        } else if shares_mention(before, previous_owner) {
            before
        } else {
            before.push(raised(e))
        }
    }
}

/// The share list after a change of owner: the list settled for the change,
/// with an entry for the previous owner at its end where the settled list
/// has none.
pub open spec fn transferred_shares(
    current: Seq<DocumentShareView>,
    new_owner: Seq<char>,
    previous_owner: Seq<char>,
    previous_name: Seq<char>,
    now: u64,
) -> Seq<DocumentShareView> {
    let settled = settled_shares(current, new_owner, previous_owner);
    if shares_mention(settled, previous_owner) {
        settled
    } else {
        settled.push(entry_of_previous_owner(previous_owner, previous_name, now))
    }
}

/// An entry of another user, put at the end of a share list, does not
/// change whether the list mentions `user_id`; one of `user_id` makes it
/// mention that user.
pub proof fn lemma_mention_push(
    shares: Seq<DocumentShareView>,
    e: DocumentShareView,
    user_id: Seq<char>,
)
    ensures
        shares_mention(shares.push(e), user_id) == (shares_mention(shares, user_id) || e.user_id
            == user_id),
{
    let longer = shares.push(e);
    if shares_mention(shares, user_id) {
        let k = choose|k: int| 0 <= k < shares.len() && (#[trigger] shares[k]).user_id == user_id;
        assert(longer[k].user_id == user_id);
    }
    if e.user_id == user_id {
        assert(longer[shares.len() as int].user_id == user_id);
    }
    if shares_mention(longer, user_id) {
        let k = choose|k: int| 0 <= k < longer.len() && (#[trigger] longer[k]).user_id == user_id;
        if k < shares.len() {
            assert(shares[k].user_id == user_id);
        }
    }
}

/// Computes the share list after a change of owner.
pub fn transfer_shares(
    current: &Vec<DocumentShare>,
    new_owner_id: &str,
    previous_owner_id: &str,
    previous_name: &str,
    now: u64,
) -> (r: Vec<DocumentShare>)
    ensures
        shares_view(r@) == transferred_shares(
            shares_view(current@),
            new_owner_id@,
            previous_owner_id@,
            previous_name@,
            now,
        ),
{
    let ghost all = shares_view(current@);
    let mut out: Vec<DocumentShare> = Vec::new();
    let mut seen = false;
    let mut i: usize = 0;
    proof {
        assert(all.take(0) =~= Seq::<DocumentShareView>::empty());
        assert(shares_view(out@) =~= Seq::<DocumentShareView>::empty());
    }
    while i < current.len()
        invariant
            i <= current.len(),
            all == shares_view(current@),
            shares_view(out@) == settled_shares(
                all.take(i as int),
                new_owner_id@,
                previous_owner_id@,
            ),
            seen == shares_mention(shares_view(out@), previous_owner_id@),
        decreases current.len() - i,
    {
        let ghost before = out@;
        proof {
            assert(all.take(i + 1).drop_last() =~= all.take(i as int));
            assert(all.take(i + 1).last() == all[i as int]);
        }
        if !str_eq(current[i].user_id.as_str(), new_owner_id) {
            if !str_eq(current[i].user_id.as_str(), previous_owner_id) {
                out.push(current[i].clone());
                proof {
                    assert(shares_view(out@) =~= shares_view(before).push(all[i as int]));
                    lemma_mention_push(shares_view(before), all[i as int], previous_owner_id@);
                }
            } else if !seen {
                let entry = DocumentShare {
                    user_id: current[i].user_id.clone(),
                    user_name: current[i].user_name.clone(),
                    permission: "edit".to_owned(),
                    shared_at: current[i].shared_at,
                };
                assert(entry@ == raised(all[i as int]));
                out.push(entry);
                proof {
                    assert(shares_view(out@) =~= shares_view(before).push(raised(all[i as int])));
                    lemma_mention_push(
                        shares_view(before),
                        raised(all[i as int]),
                        previous_owner_id@,
                    );
                }
                seen = true;
            }
        }
        i += 1;
    }
    assert(all.take(current.len() as int) =~= all);
    if !seen {
        let ghost before = out@;
        let entry = DocumentShare {
            user_id: previous_owner_id.to_owned(),
            user_name: previous_name.to_owned(),
            permission: "edit".to_owned(),
            shared_at: now,
        };
        assert(entry@ == entry_of_previous_owner(previous_owner_id@, previous_name@, now));
        out.push(entry);
        assert(shares_view(out@) =~= shares_view(before).push(entry@));
    }
    out
}

/// Whether `after` is the body `before` handed to a new owner: still an
/// object, the owner members those of the new owner, `sharedWith` an array
/// that stands for the share list after the change, nothing else changed.
pub open spec fn transfer_applied(
    before: serde_json::Value,
    after: serde_json::Value,
    new_owner_id: Seq<char>,
    new_owner_name: Seq<char>,
    previous_owner_id: Seq<char>,
    now: u64,
) -> bool {
    &&& json_is_object(after)
    &&& same_members_except(before, after, owner_members())
    &&& text_at(after, "ownerId"@) == Some(new_owner_id)
    &&& text_at(after, "ownerName"@) == Some(new_owner_name)
    &&& items_at(after, "sharedWith"@) is Some
    &&& shares_of_json(items_at(after, "sharedWith"@)->0) == Some(
        transferred_shares(
            current_shares(before),
            new_owner_id,
            previous_owner_id,
            previous_owner_name(before),
            now,
        ),
    )
}

/// Hands a body to a new owner: writes the owner members, drops the new
/// owner from the share list and makes sure the previous owner is on it.
pub fn apply_transfer(
    doc: &mut serde_json::Value,
    new_owner_id: &str,
    new_owner_name: &str,
    previous_owner_id: &str,
    now: u64,
)
    requires
        json_is_object(*old(doc)),
    ensures
        transfer_applied(
            *old(doc),
            *final(doc),
            new_owner_id@,
            new_owner_name@,
            previous_owner_id@,
            now,
        ),
{
    proof {
        reveal_member_names();
    }
    let current = match get_items(doc, "sharedWith") {
        Some(list) => parse_shares_among(list),
        None => Vec::new(),
    };
    assert(shares_view(current@) =~= current_shares(*doc));
    let previous_name = match get_text(doc, "lastModifiedByName") {
        Some(n) => n,
        None => "Previous Owner".to_owned(),
    };
    let shares = transfer_shares(
        &current,
        new_owner_id,
        previous_owner_id,
        previous_name.as_str(),
        now,
    );
    set_member(doc, "ownerId", from_text(new_owner_id));
    set_member(doc, "ownerName", from_text(new_owner_name));
    set_member(doc, "sharedWith", shares_to_json(&shares));
}

/// The metadata that a JSON object stands for, as the index and the wire
/// carry it: `id` and `name` are texts, `pageCount`, `modifiedAt` and
/// `createdAt` are numbers; the other members are read where they are
/// readable.
pub open spec fn stored_metadata_of(v: serde_json::Value) -> Option<DocumentMetadataView> {
    if text_at(v, "id"@) is Some && text_at(v, "name"@) is Some
        && number_at(v, "pageCount"@) is Some
        && number_at(v, "pageCount"@)->0 <= usize::MAX && number_at(v, "modifiedAt"@) is Some
        && number_at(v, "createdAt"@) is Some {
        Some(
            DocumentMetadataView {
                id: text_at(v, "id"@)->0,
                name: text_at(v, "name"@)->0,
                page_count: number_at(v, "pageCount"@)->0 as usize,
                modified_at: number_at(v, "modifiedAt"@)->0,
                created_at: number_at(v, "createdAt"@)->0,
                is_team_document: flag_at(v, "isTeamDocument"@),
                locked_by: text_at(v, "lockedBy"@),
                locked_by_name: text_at(v, "lockedByName"@),
                locked_at: number_at(v, "lockedAt"@),
                owner_id: text_at(v, "ownerId"@),
                owner_name: text_at(v, "ownerName"@),
                shared_with: match items_at(v, "sharedWith"@) {
                    Some(list) => shares_of_json(list),
                    None => None,
                },
                last_modified_by: text_at(v, "lastModifiedBy"@),
                last_modified_by_name: text_at(v, "lastModifiedByName"@),
            },
        )
    } else {
        None
    }
}

/// Reads metadata out of a JSON object, as the index and the wire carry it.
pub fn metadata_from_json(v: &serde_json::Value) -> (r: Option<DocumentMetadata>)
    ensures
        opt_stored(r) == stored_metadata_of(*v),
{
    let id = get_text(v, "id");
    let name = get_text(v, "name");
    let page_count = get_number(v, "pageCount");
    let modified_at = get_number(v, "modifiedAt");
    let created_at = get_number(v, "createdAt");
    match (id, name, page_count, modified_at, created_at) {
        (Some(id), Some(name), Some(page_count), Some(modified_at), Some(created_at)) => {
            if page_count > usize::MAX as u64 {
                return None;
            }
            let shared_with = match get_items(v, "sharedWith") {
                Some(list) => parse_shares(list),
                None => None,
            };
            Some(
                DocumentMetadata {
                    id,
                    name,
                    page_count: page_count as usize,
                    modified_at,
                    created_at,
                    is_team_document: get_flag(v, "isTeamDocument"),
                    locked_by: get_text(v, "lockedBy"),
                    locked_by_name: get_text(v, "lockedByName"),
                    locked_at: get_number(v, "lockedAt"),
                    owner_id: get_text(v, "ownerId"),
                    owner_name: get_text(v, "ownerName"),
                    shared_with,
                    last_modified_by: get_text(v, "lastModifiedBy"),
                    last_modified_by_name: get_text(v, "lastModifiedByName"),
                },
            )
        },
        _ => None,
    }
}

/// The model of optional metadata.
pub open spec fn opt_stored(o: Option<DocumentMetadata>) -> Option<DocumentMetadataView> {
    match o {
        Some(m) => Some(m@),
        None => None,
    }
}

/// Writes metadata as a JSON object, as the index and the wire carry it;
/// members that are `None` are left out.
pub fn metadata_to_json(m: &DocumentMetadata) -> (r: serde_json::Value)
    ensures
        json_is_object(r),
        stored_metadata_of(r) == Some(m@),
{
    proof {
        reveal_member_names();
        reveal_strlit("pageCount");
    }
    let mut r = object();
    put_text(&mut r, "id", m.id.as_str());
    put_text(&mut r, "name", m.name.as_str());
    put_number(&mut r, "pageCount", m.page_count as u64);
    put_number(&mut r, "modifiedAt", m.modified_at);
    put_number(&mut r, "createdAt", m.created_at);
    put_opt_flag(&mut r, "isTeamDocument", m.is_team_document);
    put_opt_text(&mut r, "lockedBy", &m.locked_by);
    put_opt_text(&mut r, "lockedByName", &m.locked_by_name);
    put_opt_number(&mut r, "lockedAt", m.locked_at);
    put_opt_text(&mut r, "ownerId", &m.owner_id);
    put_opt_text(&mut r, "ownerName", &m.owner_name);
    match &m.shared_with {
        Some(shares) => {
            set_member(&mut r, "sharedWith", shares_to_json(shares));
        },
        None => {},
    }
    put_opt_text(&mut r, "lastModifiedBy", &m.last_modified_by);
    put_opt_text(&mut r, "lastModifiedByName", &m.last_modified_by_name);
    r
}

/// What a saved body asks of the disk: the text to write, the place to write
/// it to, and the metadata that enters the index once it is written.
#[derive(Debug)]
pub struct SavePlan {
    pub metadata: DocumentMetadata,
    pub path: String,
    pub content: String,
    pub body: serde_json::Value,
}

/// The place of a document's body below the documents directory.
pub open spec fn doc_path_of(doc_id: Seq<char>) -> Seq<char> {
    "docs/"@ + doc_id + ".json"@
}

/// The metadata `m` with a lock written into it, or taken out of it.
pub open spec fn with_lock(
    m: DocumentMetadataView,
    user_id: Option<&str>,
    user_name: Option<&str>,
    now: u64,
) -> DocumentMetadataView {
    match user_id {
        Some(uid) => DocumentMetadataView {
            locked_by: Some(uid@),
            locked_by_name: Some(lock_holder_name(user_name)),
            locked_at: Some(now),
            ..m
        },
        None => DocumentMetadataView {
            locked_by: None,
            locked_by_name: None,
            locked_at: None,
            ..m
        },
    }
}

/// The metadata `m` with another share list.
pub open spec fn with_shares(
    m: DocumentMetadataView,
    shares: Seq<DocumentShareView>,
) -> DocumentMetadataView {
    DocumentMetadataView { shared_with: Some(shares), ..m }
}

/// The metadata `m` with another owner and share list.
pub open spec fn with_owner(
    m: DocumentMetadataView,
    owner_id: Seq<char>,
    owner_name: Seq<char>,
    shares: Seq<DocumentShareView>,
) -> DocumentMetadataView {
    DocumentMetadataView {
        owner_id: Some(owner_id),
        owner_name: Some(owner_name),
        shared_with: Some(shares),
        ..m
    }
}

/// The index that a list of entries stands for: each entry under its id, a
/// later entry replacing an earlier one with the same id, entries without an
/// id left out.
pub open spec fn loaded_index(entries: Seq<DocumentMetadata>) -> Map<
    Seq<char>,
    DocumentMetadataView,
>
    decreases entries.len(),
{
    if entries.len() == 0 {
        Map::empty()
    } else {
        let rest = loaded_index(entries.drop_last());
        let last = entries.last();
        if last.id@.len() == 0 {
            rest
        } else {
            rest.insert(last.id@, last@)
        }
    }
}

/// The index after a document has been deleted.
pub open spec fn index_without(
    index: Map<Seq<char>, DocumentMetadataView>,
    doc_id: Seq<char>,
) -> Map<Seq<char>, DocumentMetadataView> {
    index.remove(doc_id)
}

/// Whether a deletion found anything to delete: the document's file or its
/// index entry.
pub open spec fn deletion_found(
    index: Map<Seq<char>, DocumentMetadataView>,
    doc_id: Seq<char>,
    file_existed: bool,
) -> bool {
    file_existed || index.contains_key(doc_id)
}

/// The index after the metadata of a saved document has been entered.
pub open spec fn index_with(
    index: Map<Seq<char>, DocumentMetadataView>,
    metadata: DocumentMetadataView,
) -> Map<Seq<char>, DocumentMetadataView> {
    index.insert(metadata.id, metadata)
}

/// The entries of a stored index whose files are still there: `has_file`
/// tells of each entry, by its position, whether its document's file was
/// found; an entry that it does not speak of counts as without a file.
pub open spec fn entries_with_file(
    entries: Seq<DocumentMetadataView>,
    has_file: Seq<bool>,
) -> Seq<DocumentMetadataView>
    decreases entries.len(),
{
    if entries.len() == 0 {
        Seq::empty()
    } else {
        let rest = entries_with_file(entries.drop_last(), has_file);
        let last = entries.len() - 1;
        if last < has_file.len() && has_file[last] {
            rest.push(entries.last())
        } else {
            rest
        }
    }
}

/// The models of a list of entries.
pub open spec fn entries_model(s: Seq<DocumentMetadata>) -> Seq<DocumentMetadataView> {
    Seq::new(s.len(), |i: int| s[i]@)
}

/// Drops from a stored index the entries whose files are gone, so that the
/// index written next no longer has them.
pub fn drop_missing(entries: &Vec<DocumentMetadata>, has_file: &Vec<bool>) -> (r: Vec<
    DocumentMetadata,
>)
    ensures
        entries_model(r@) == entries_with_file(entries_model(entries@), has_file@),
{
    let ghost all = entries_model(entries@);
    let mut out: Vec<DocumentMetadata> = Vec::new();
    let mut i: usize = 0;
    assert(all.take(0) =~= Seq::<DocumentMetadataView>::empty());
    assert(entries_model(out@) =~= Seq::<DocumentMetadataView>::empty());
    while i < entries.len()
        invariant
            i <= entries.len(),
            all == entries_model(entries@),
            entries_model(out@) == entries_with_file(all.take(i as int), has_file@),
        decreases entries.len() - i,
    {
        let ghost before = out@;
        assert(all.take(i + 1).drop_last() =~= all.take(i as int));
        assert(all.take(i + 1).last() == all[i as int]);
        if i < has_file.len() && has_file[i] {
            out.push(entries[i].clone());
            assert(entries_model(out@) =~= entries_model(before).push(all[i as int]));
        }
        i += 1;
    }
    assert(all.take(entries.len() as int) =~= all);
    out
}

/// The index as a map from document id to metadata.
pub open spec fn index_model(s: Seq<DocumentMetadata>) -> Map<Seq<char>, DocumentMetadataView> {
    as_map(s).map_values(|m: DocumentMetadata| m@)
}

/// What preparing the saving of a body comes to, given the metadata that the
/// body stands for: a plan that holds the body, its text, its metadata and
/// the place of its file.
pub open spec fn planned(
    body: serde_json::Value,
    metadata: DocumentMetadataView,
    r: Result<SavePlan, String>,
) -> bool {
    &&& r matches Ok(plan)
    &&& plan.body == body
    &&& plan.content@ == json_rendered(body)
    &&& plan.metadata@ == metadata
    &&& plan.path@ == doc_path_of(metadata.id)
}

/// The share list that a body carries after a change of owner.
pub open spec fn shares_after_transfer(
    doc: serde_json::Value,
    new_owner_id: Seq<char>,
    previous_owner_id: Seq<char>,
    now: u64,
) -> Seq<DocumentShareView> {
    transferred_shares(
        current_shares(doc),
        new_owner_id,
        previous_owner_id,
        previous_owner_name(doc),
        now,
    )
}

/// The test that tells a body with a lock written into it from the body
/// before.
pub open spec fn lock_patch(user_id: Option<&str>, user_name: Option<&str>, now: u64) -> spec_fn(
    serde_json::Value,
    serde_json::Value,
) -> bool {
    |before: serde_json::Value, after: serde_json::Value|
        lock_applied(before, after, user_id, user_name, now)
}

/// The metadata of a body after a lock has been written into it.
pub open spec fn lock_metadata(user_id: Option<&str>, user_name: Option<&str>, now: u64) -> spec_fn(
    serde_json::Value,
    DocumentMetadataView,
) -> DocumentMetadataView {
    |doc: serde_json::Value, m: DocumentMetadataView| with_lock(m, user_id, user_name, now)
}

/// The test that tells a body with a share list written into it from the
/// body before.
pub open spec fn shares_patch(shares: Seq<DocumentShareView>) -> spec_fn(
    serde_json::Value,
    serde_json::Value,
) -> bool {
    |before: serde_json::Value, after: serde_json::Value| shares_applied(before, after, shares)
}

/// The metadata of a body after a share list has been written into it.
pub open spec fn shares_metadata(shares: Seq<DocumentShareView>) -> spec_fn(
    serde_json::Value,
    DocumentMetadataView,
) -> DocumentMetadataView {
    |doc: serde_json::Value, m: DocumentMetadataView| with_shares(m, shares)
}

/// The test that tells a body handed to a new owner from the body before.
pub open spec fn owner_patch(
    new_owner_id: Seq<char>,
    new_owner_name: Seq<char>,
    previous_owner_id: Seq<char>,
    now: u64,
) -> spec_fn(serde_json::Value, serde_json::Value) -> bool {
    |before: serde_json::Value, after: serde_json::Value|
        transfer_applied(before, after, new_owner_id, new_owner_name, previous_owner_id, now)
}

/// The metadata of a body after it has been handed to a new owner.
pub open spec fn owner_metadata(
    new_owner_id: Seq<char>,
    new_owner_name: Seq<char>,
    previous_owner_id: Seq<char>,
    now: u64,
) -> spec_fn(serde_json::Value, DocumentMetadataView) -> DocumentMetadataView {
    |doc: serde_json::Value, m: DocumentMetadataView|
        with_owner(
            m,
            new_owner_id,
            new_owner_name,
            shares_after_transfer(doc, new_owner_id, previous_owner_id, now),
        )
}

/// The index of all team documents.
pub struct DocumentStore {
    index: Vec<DocumentMetadata>,
}

impl View for DocumentStore {
    type V = Map<Seq<char>, DocumentMetadataView>;

    closed spec fn view(&self) -> Map<Seq<char>, DocumentMetadataView> {
        index_model(self.index@)
    }
}

impl DocumentStore {
    /// No id occurs twice in the index, and none is empty.
    pub closed spec fn wf(&self) -> bool {
        &&& distinct_keys(self.index@)
        &&& forall|i: int| 0 <= i < self.index@.len() ==> (#[trigger] self.index@[i]).id@.len() > 0
    }

    /// Every entry of a well-formed index stands under its own id, which is
    /// not empty.
    pub proof fn lemma_entries_keyed(&self)
        requires
            self.wf(),
        ensures
            forall|id: Seq<char>| #[trigger]
                self@.contains_key(id) ==> id.len() > 0 && self@[id].id == id,
    {
        assert forall|id: Seq<char>| #[trigger] self@.contains_key(id) implies id.len() > 0
            && self@[id].id == id by {
            let i = crate::keyed::index_of(self.index@, id);
            lemma_as_map_at(self.index@, i);
        }
    }

    /// What reading a document's file yields as a body: nothing where the
    /// index lacks the document, the file could not be read, or its text is
    /// no JSON.
    pub open spec fn stored_body(
        &self,
        doc_id: Seq<char>,
        file: Result<String, String>,
    ) -> Option<serde_json::Value> {
        if self@.contains_key(doc_id) {
            match file {
                Ok(text) => json_parsed(text@),
                Err(_) => None,
            }
        } else {
            None
        }
    }

    /// Whether `e` is the reason why a document could not be read: the index
    /// lacks it, its file could not be read, or the file's text is no JSON.
    pub open spec fn is_read_error(
        &self,
        doc_id: Seq<char>,
        file: Result<String, String>,
        e: Seq<char>,
    ) -> bool {
        if !self@.contains_key(doc_id) {
            e == "Document not found"@
        } else {
            match file {
                Ok(_) => starts_with(e, "Failed to parse document: "@),
                Err(reason) => e == "Failed to read document: "@ + reason@,
            }
        }
    }

    /// What preparing a change to a stored document comes to. A document
    /// that cannot be read, or that has no id, is refused for that reason.
    /// Else there is a patched body, which `is_patch` tells from the body
    /// read, and the saving of that body is prepared, with the metadata
    /// `patched` of the body read.
    pub open spec fn patch_planned(
        &self,
        doc_id: Seq<char>,
        file: Result<String, String>,
        now: u64,
        is_patch: spec_fn(serde_json::Value, serde_json::Value) -> bool,
        patched: spec_fn(serde_json::Value, DocumentMetadataView) -> DocumentMetadataView,
        r: Result<SavePlan, String>,
    ) -> bool {
        match self.stored_body(doc_id, file) {
            None => r matches Err(e) && self.is_read_error(doc_id, file, e@),
            Some(doc) => match metadata_of(doc, now) {
                None => r matches Err(e) && e@ == "Document missing 'id' field"@,
                Some(m) => exists|body: serde_json::Value|
                    #![trigger planned(body, patched(doc, m), r)]
                    is_patch(doc, body) && planned(body, patched(doc, m), r),
            },
        }
    }

    /// An index without documents.
    pub fn new() -> (r: Self)
        ensures
            r.wf(),
            r@ == Map::<Seq<char>, DocumentMetadataView>::empty(),
    {
        let r = DocumentStore { index: Vec::new() };
        proof {
            lemma_as_map_empty::<DocumentMetadata>();
            assert(r@ =~= Map::<Seq<char>, DocumentMetadataView>::empty());
        }
        r
    }

    /// The index that was last written to disk, given its entries.
    pub fn with_index(entries: &Vec<DocumentMetadata>) -> (r: Self)
        ensures
            r.wf(),
            r@ == loaded_index(entries@),
    {
        let mut r = DocumentStore::new();
        let mut i: usize = 0;
        assert(entries@.take(0) =~= Seq::<DocumentMetadata>::empty());
        while i < entries.len()
            invariant
                i <= entries.len(),
                r.wf(),
                r@ == loaded_index(entries@.take(i as int)),
            decreases entries.len() - i,
        {
            assert(entries@.take(i + 1).drop_last() =~= entries@.take(i as int));
            assert(entries@.take(i + 1).last() == entries@[i as int]);
            if !entries[i].id.as_str().is_empty() {
                r.commit(entries[i].clone());
            }
            i += 1;
        }
        assert(entries@.take(entries.len() as int) =~= entries@);
        r
    }

    /// The place of the index file below the documents directory.
    pub fn index_path(&self) -> (r: String)
        ensures
            r@ == "index.json"@,
    {
        "index.json".to_owned()
    }

    /// The place of a document's body below the documents directory.
    pub fn doc_path(&self, doc_id: &str) -> (r: String)
        ensures
            r@ == doc_path_of(doc_id@),
    {
        let mut r = concat_str("docs/", doc_id);
        r.append(".json");
        r
    }

    /// The metadata of all documents, each once.
    pub fn list_documents(&self) -> (r: Vec<DocumentMetadata>)
        requires
            self.wf(),
        ensures
            distinct_keys(r@),
            index_model(r@) == self@,
    {
        let mut r: Vec<DocumentMetadata> = Vec::new();
        let mut i: usize = 0;
        while i < self.index.len()
            invariant
                i <= self.index.len(),
                r.len() == i,
                forall|j: int| 0 <= j < i ==> (#[trigger] r[j])@ == self.index[j]@,
            decreases self.index.len() - i,
        {
            r.push(self.index[i].clone());
            i += 1;
        }
        proof {
            lemma_same_views_same_model(self.index@, r@);
        }
        r
    }

    /// Whether the index has a document.
    pub fn contains(&self, doc_id: &str) -> (r: bool)
        ensures
            r == self@.contains_key(doc_id@),
    {
        position(&self.index, doc_id).is_some()
    }

    /// The metadata of a document.
    pub fn get_metadata(&self, doc_id: &str) -> (r: Option<DocumentMetadata>)
        requires
            self.wf(),
        ensures
            match r {
                Some(m) => self@.contains_key(doc_id@) && m@ == self@[doc_id@],
                None => !self@.contains_key(doc_id@),
            },
    {
        match position(&self.index, doc_id) {
            Some(i) => {
                proof {
                    lemma_as_map_at(self.index@, i as int);
                }
                Some(self.index[i].clone())
            },
            None => None,
        }
    }

    /// The metadata of a document; another name for [`Self::get_metadata`].
    pub fn get_document_metadata(&self, doc_id: &str) -> (r: Option<DocumentMetadata>)
        requires
            self.wf(),
        ensures
            match r {
                Some(m) => self@.contains_key(doc_id@) && m@ == self@[doc_id@],
                None => !self@.contains_key(doc_id@),
            },
    {
        self.get_metadata(doc_id)
    }

    /// Whether a document is locked by somebody other than `user_id`.
    pub fn is_locked_by_other(&self, doc_id: &str, user_id: &str) -> (r: bool)
        requires
            self.wf(),
        ensures
            r == (self@.contains_key(doc_id@) && self@[doc_id@].locked_by is Some
                && self@[doc_id@].locked_by->0 != user_id@),
    {
        match position(&self.index, doc_id) {
            Some(i) => {
                proof {
                    lemma_as_map_at(self.index@, i as int);
                }
                match &self.index[i].locked_by {
                    Some(holder) => !str_eq(holder.as_str(), user_id),
                    None => false,
                }
            },
            None => false,
        }
    }

    /// The body of a document, given what reading its file gave. `file`
    /// holds the text of the file at [`Self::doc_path`], or the reason why it
    /// could not be read; it is looked at only where the index has the
    /// document.
    pub fn get_document(&self, doc_id: &str, file: Result<String, String>) -> (r: Result<
        serde_json::Value,
        String,
    >)
        ensures
            match r {
                Ok(body) => self.stored_body(doc_id@, file) == Some(body),
                Err(e) => self.stored_body(doc_id@, file) is None && self.is_read_error(
                    doc_id@,
                    file,
                    e@,
                ),
            },
    {
        if !self.contains(doc_id) {
            return Err("Document not found".to_owned());
        }
        match file {
            Ok(text) => match parse(text.as_str()) {
                Ok(body) => Ok(body),
                Err(e) => Err(
                    with_detail("Failed to parse document: ", error_text(&e).as_str()),
                ),
            },
            Err(reason) => Err(with_detail("Failed to read document: ", reason.as_str())),
        }
    }

    /// Prepares the saving of a body: derives its metadata and renders its
    /// text. The index is not touched; [`Self::commit`] enters the metadata
    /// once the text is on disk. `now` is the current time in milliseconds.
    pub fn save_document(&self, doc: serde_json::Value, now: u64) -> (r: Result<SavePlan, String>)
        ensures
            match metadata_of(doc, now) {
                None => r matches Err(e) && e@ == "Document missing 'id' field"@,
                Some(m) => planned(doc, m, r),
            },
    {
        let metadata = match extract_metadata(&doc, now) {
            Some(m) => m,
            None => {
                return Err("Document missing 'id' field".to_owned());
            },
        };
        let content = match render(&doc) {
            Ok(text) => text,
            Err(e) => {
                return Err(with_detail("Serialize error: ", error_text(&e).as_str()));
            },
        };
        let path = self.doc_path(metadata.id.as_str());
        Ok(SavePlan { metadata, path, content, body: doc })
    }

    /// Enters the metadata of a saved document into the index, in place of
    /// what the index had under the same id. Returns whether the document is
    /// new to the index.
    pub fn commit(&mut self, metadata: DocumentMetadata) -> (created: bool)
        requires
            old(self).wf(),
            metadata.id@.len() > 0,
        ensures
            final(self).wf(),
            final(self)@ == index_with(old(self)@, metadata@),
            created == !old(self)@.contains_key(metadata.id@),
    {
        let ghost before = self.index@;
        match position(&self.index, metadata.id.as_str()) {
            Some(i) => {
                proof {
                    lemma_as_map_update(before, i as int, metadata);
                    assert(has_key(before, metadata.id@));
                }
                self.index[i] = metadata;
                assert(self.index@ =~= before.update(i as int, metadata));
                assert(self@ =~= old(self)@.insert(metadata.id@, metadata@));
                false
            },
            None => {
                proof {
                    lemma_as_map_push(before, metadata);
                }
                self.index.push(metadata);
                assert(self@ =~= old(self)@.insert(metadata.id@, metadata@));
                true
            },
        }
    }

    /// Takes a document out of the index. `file_existed` says whether the
    /// caller found, and removed, the document's file. Returns `false` only
    /// where neither the file nor an index entry existed.
    pub fn delete_document(&mut self, doc_id: &str, file_existed: bool) -> (removed: bool)
        requires
            old(self).wf(),
        ensures
            final(self).wf(),
            final(self)@ == index_without(old(self)@, doc_id@),
            removed == deletion_found(old(self)@, doc_id@, file_existed),
    {
        let ghost before = self.index@;
        match position(&self.index, doc_id) {
            Some(i) => {
                proof {
                    lemma_as_map_remove(before, i as int);
                    assert(has_key(before, doc_id@));
                }
                self.index.remove(i);
                assert(self@ =~= old(self)@.remove(doc_id@));
                true
            },
            None => {
                assert(self@ =~= old(self)@.remove(doc_id@));
                file_existed
            },
        }
    }

    /// Prepares the locking of a document by `user_id`, or its unlocking
    /// where `user_id` is `None`: patches the body that `file` holds and
    /// prepares its saving.
    pub fn set_lock(
        &self,
        doc_id: &str,
        file: Result<String, String>,
        user_id: Option<&str>,
        user_name: Option<&str>,
        now: u64,
    ) -> (r: Result<SavePlan, String>)
        ensures
            self.patch_planned(
                doc_id@,
                file,
                now,
                lock_patch(user_id, user_name, now),
                lock_metadata(user_id, user_name, now),
                r,
            ),
    {
        let mut doc = match self.get_document(doc_id, file) {
            Ok(doc) => doc,
            Err(e) => {
                return Err(e);
            },
        };
        if get_text(&doc, "id").is_none() {
            return Err("Document missing 'id' field".to_owned());
        }
        let ghost read = doc;
        apply_lock(&mut doc, user_id, user_name, now);
        let ghost body = doc;
        proof {
            reveal_member_names();
        }
        let r = self.save_document(doc, now);
        proof {
            if metadata_of(read, now) is Some {
                let m = metadata_of(read, now)->0;
                assert(planned(body, lock_metadata(user_id, user_name, now)(read, m), r));
            }
        }
        r
    }

    /// Prepares the replacing of a document's share list by what `shares`
    /// asks for.
    pub fn update_document_shares(
        &self,
        doc_id: &str,
        file: Result<String, String>,
        shares: &Vec<ShareEntry>,
        now: u64,
    ) -> (r: Result<SavePlan, String>)
        ensures
            self.patch_planned(
                doc_id@,
                file,
                now,
                shares_patch(requested_shares(entries_view(shares@), now)),
                shares_metadata(requested_shares(entries_view(shares@), now)),
                r,
            ),
    {
        let mut doc = match self.get_document(doc_id, file) {
            Ok(doc) => doc,
            Err(e) => {
                return Err(e);
            },
        };
        if get_text(&doc, "id").is_none() {
            return Err("Document missing 'id' field".to_owned());
        }
        let ghost read = doc;
        let new_shares = build_shares(shares, now);
        apply_shares(&mut doc, &new_shares);
        let ghost body = doc;
        proof {
            reveal_member_names();
        }
        let r = self.save_document(doc, now);
        proof {
            let wanted = requested_shares(entries_view(shares@), now);
            if metadata_of(read, now) is Some {
                let m = metadata_of(read, now)->0;
                assert(planned(body, shares_metadata(wanted)(read, m), r));
            }
        }
        r
    }

    /// Prepares the handing of a document to a new owner.
    pub fn transfer_ownership(
        &self,
        doc_id: &str,
        file: Result<String, String>,
        new_owner_id: &str,
        new_owner_name: &str,
        previous_owner_id: &str,
        now: u64,
    ) -> (r: Result<SavePlan, String>)
        ensures
            self.patch_planned(
                doc_id@,
                file,
                now,
                owner_patch(new_owner_id@, new_owner_name@, previous_owner_id@, now),
                owner_metadata(new_owner_id@, new_owner_name@, previous_owner_id@, now),
                r,
            ),
    {
        let mut doc = match self.get_document(doc_id, file) {
            Ok(doc) => doc,
            Err(e) => {
                return Err(e);
            },
        };
        if get_text(&doc, "id").is_none() {
            return Err("Document missing 'id' field".to_owned());
        }
        let ghost read = doc;
        apply_transfer(&mut doc, new_owner_id, new_owner_name, previous_owner_id, now);
        let ghost body = doc;
        proof {
            reveal_member_names();
        }
        let r = self.save_document(doc, now);
        proof {
            if metadata_of(read, now) is Some {
                let m = metadata_of(read, now)->0;
                assert(planned(
                    body,
                    owner_metadata(new_owner_id@, new_owner_name@, previous_owner_id@, now)(
                        read,
                        m,
                    ),
                    r,
                ));
            }
        }
        r
    }
}

/// Two lists whose entries have the same models, position by position, stand
/// for the same index.
pub proof fn lemma_same_views_same_model(a: Seq<DocumentMetadata>, b: Seq<DocumentMetadata>)
    requires
        distinct_keys(a),
        a.len() == b.len(),
        forall|j: int| 0 <= j < a.len() ==> (#[trigger] b[j])@ == a[j]@,
    ensures
        distinct_keys(b),
        index_model(b) == index_model(a),
{
    assert forall|i: int, j: int| 0 <= i < j < b.len() implies b[i].key() != b[j].key() by {
        assert(b[i]@ == a[i]@);
        assert(b[j]@ == a[j]@);
        assert(a[i].key() != a[j].key());
    }
    assert forall|k: Seq<char>| has_key(a, k) <==> has_key(b, k) by {
        if has_key(a, k) {
            let i = crate::keyed::index_of(a, k);
            assert(b[i]@ == a[i]@);
            assert(b[i].key() == k);
        }
        if has_key(b, k) {
            let i = crate::keyed::index_of(b, k);
            assert(b[i]@ == a[i]@);
            assert(a[i].key() == k);
        }
    }
    assert forall|k: Seq<char>| has_key(a, k) implies #[trigger] index_model(a)[k] == index_model(
        b,
    )[k] by {
        let i = crate::keyed::index_of(a, k);
        lemma_as_map_at(a, i);
        assert(b[i]@ == a[i]@);
        assert(b[i].key() == k);
        lemma_as_map_at(b, i);
    }
    assert(index_model(b) =~= index_model(a));
}

/// Deleting is idempotent past the first success: once a document has been
/// deleted, its file being gone with it, deleting it again finds nothing and
/// leaves the index as it is.
pub proof fn law_delete_idempotent(index: Map<Seq<char>, DocumentMetadataView>, doc_id: Seq<char>)
    ensures
        !deletion_found(index_without(index, doc_id), doc_id, false),
        index_without(index_without(index, doc_id), doc_id) == index_without(index, doc_id),
{
    assert(index.remove(doc_id).remove(doc_id) =~= index.remove(doc_id));
}

/// After a body has been saved, the index has it under the body's id, with
/// the body's name, as many pages as `pageOrder` lists, and the team members
/// of the body. A `createdAt` that the body carries is kept whenever the body
/// is saved, and the `modifiedAt` recorded is the one supplied, or the time
/// of saving where none was.
pub proof fn law_save_then_lookup(
    index: Map<Seq<char>, DocumentMetadataView>,
    doc: serde_json::Value,
    now: u64,
    later: u64,
)
    requires
        metadata_of(doc, now) is Some,
    ensures
        ({
            let saved = metadata_of(doc, now)->0;
            let after = index_with(index, saved);
            let id = text_at(doc, "id"@)->0;
            &&& after.contains_key(id)
            &&& after[id].id == id
            &&& text_at(doc, "name"@) is Some ==> after[id].name == text_at(doc, "name"@)->0
            &&& items_at(doc, "pageOrder"@) is Some ==> after[id].page_count == items_at(
                doc,
                "pageOrder"@,
            )->0.len() as usize
            &&& after[id].owner_id == text_at(doc, "ownerId"@)
            &&& after[id].owner_name == text_at(doc, "ownerName"@)
            &&& after[id].locked_by == text_at(doc, "lockedBy"@)
            &&& after[id].is_team_document == flag_at(doc, "isTeamDocument"@)
            &&& metadata_of(doc, later) is Some
            &&& number_at(doc, "createdAt"@) is Some ==> metadata_of(doc, later)->0.created_at
                == after[id].created_at
            &&& match number_at(doc, "modifiedAt"@) {
                Some(t) => after[id].modified_at == t,
                None => after[id].modified_at == now,
            }
        }),
{
}

/// Every document that the index lists is found under the id it is listed
/// with, and is got whenever its file holds readable JSON.
pub proof fn law_listed_is_found(
    store: DocumentStore,
    listed: Seq<DocumentMetadata>,
    i: int,
    file: Result<String, String>,
)
    requires
        store.wf(),
        distinct_keys(listed),
        index_model(listed) == store@,
        0 <= i < listed.len(),
    ensures
        store@.contains_key(listed[i].id@),
        store@[listed[i].id@] == listed[i]@,
        listed[i].id@.len() > 0,
        file matches Ok(text) ==> store.stored_body(listed[i].id@, file) == json_parsed(text@),
{
    lemma_as_map_at(listed, i);
    store.lemma_entries_keyed();
}

/// What a get reads after a save. Where a body was saved, its metadata
/// entered the index and the document's file holds the text that the save
/// wrote, a get of the document reads that text back: its result is what
/// the JSON reader makes of the text that the JSON writer made of the body.
pub proof fn law_get_reads_what_save_wrote(
    store: DocumentStore,
    body: serde_json::Value,
    now: u64,
    plan: SavePlan,
    file: Result<String, String>,
)
    requires
        metadata_of(body, now) is Some,
        planned(body, metadata_of(body, now)->0, Ok::<SavePlan, String>(plan)),
        store@.contains_key(plan.metadata.id@),
        file matches Ok(text) && text@ == plan.content@,
    ensures
        plan.metadata.id@ == text_at(body, "id"@)->0,
        store.stored_body(plan.metadata.id@, file) == json_parsed(json_rendered(body)),
{
}

/// A lock is recorded whole or not at all: after locking, the holder, the
/// holder's name and the time are all there; after unlocking, none is.
pub proof fn law_lock_members_together(
    m: DocumentMetadataView,
    user_id: Option<&str>,
    user_name: Option<&str>,
    now: u64,
)
    ensures
        ({
            let locked = with_lock(m, user_id, user_name, now);
            locked.locked_by is Some <==> locked.locked_by_name is Some
        }),
        ({
            let locked = with_lock(m, user_id, user_name, now);
            locked.locked_by is Some <==> locked.locked_at is Some
        }),
        with_lock(m, user_id, user_name, now).locked_by is Some <==> user_id is Some,
{
}

/// What holds of a share list settled for a change of owner: the new owner
/// has no entry; the previous owner has at most one, which grants `edit`;
/// the entries of third users are those of the list before, in their order.
pub proof fn lemma_settled_shares(
    current: Seq<DocumentShareView>,
    new_owner: Seq<char>,
    previous_owner: Seq<char>,
)
    ensures
        !shares_mention(settled_shares(current, new_owner, previous_owner), new_owner),
        ({
            let settled = settled_shares(current, new_owner, previous_owner);
            forall|i: int, j: int|
                0 <= i < settled.len() && 0 <= j < settled.len() && (#[trigger] settled[i]).user_id
                    == previous_owner && (#[trigger] settled[j]).user_id == previous_owner ==> i
                    == j && settled[i].permission == "edit"@
        }),
        settled_shares(current, new_owner, previous_owner).filter(
            neither_of(new_owner, previous_owner),
        ) == current.filter(neither_of(new_owner, previous_owner)),
    decreases current.len(),
{
    let keep = neither_of(new_owner, previous_owner);
    let settled = settled_shares(current, new_owner, previous_owner);
    if current.len() == 0 {
        assert(settled.filter(keep) =~= current.filter(keep));
    } else {
        let e = current.last();
        let before = settled_shares(current.drop_last(), new_owner, previous_owner);
        lemma_settled_shares(current.drop_last(), new_owner, previous_owner);
        assert(current =~= current.drop_last().push(e));
        Seq::lemma_filter_push(current.drop_last(), e, keep);
        if e.user_id != new_owner && e.user_id != previous_owner {
            lemma_mention_push(before, e, new_owner);
            Seq::lemma_filter_push(before, e, keep);
        } else if e.user_id != new_owner && !shares_mention(before, previous_owner) {
            lemma_mention_push(before, raised(e), new_owner);
            Seq::lemma_filter_push(before, raised(e), keep);
            assert forall|i: int| 0 <= i < before.len() implies (#[trigger] before[i]).user_id
                != previous_owner by {}
        }
    }
}

/// After a document has been handed over, the previous owner has exactly
/// one entry on the share list, which grants `edit`; the new owner has none,
/// unless the document was handed to whom it came from; and the entries of
/// third users are as they were, in their order.
pub proof fn law_transfer_swaps_owner(
    current: Seq<DocumentShareView>,
    new_owner: Seq<char>,
    previous_owner: Seq<char>,
    previous_name: Seq<char>,
    now: u64,
)
    ensures
        ({
            let after = transferred_shares(current, new_owner, previous_owner, previous_name, now);
            exists|i: int|
                {
                    &&& 0 <= i < after.len()
                    &&& (#[trigger] after[i]).user_id == previous_owner
                    &&& after[i].permission == "edit"@
                    &&& forall|j: int|
                        0 <= j < after.len() && j != i ==> (#[trigger] after[j]).user_id
                            != previous_owner
                }
        }),
        new_owner != previous_owner ==> !shares_mention(
            transferred_shares(current, new_owner, previous_owner, previous_name, now),
            new_owner,
        ),
        transferred_shares(current, new_owner, previous_owner, previous_name, now).filter(
            neither_of(new_owner, previous_owner),
        ) == current.filter(neither_of(new_owner, previous_owner)),
{
    let keep = neither_of(new_owner, previous_owner);
    let settled = settled_shares(current, new_owner, previous_owner);
    let after = transferred_shares(current, new_owner, previous_owner, previous_name, now);
    let joined = entry_of_previous_owner(previous_owner, previous_name, now);
    lemma_settled_shares(current, new_owner, previous_owner);
    if shares_mention(settled, previous_owner) {
        let i = choose|i: int| 0 <= i < settled.len() && (#[trigger] settled[i]).user_id
            == previous_owner;
        assert(after[i].user_id == previous_owner);
        assert(after[i].permission == "edit"@);
    } else {
        let i = settled.len() as int;
        lemma_mention_push(settled, joined, new_owner);
        Seq::lemma_filter_push(settled, joined, keep);
        assert(after[i].user_id == previous_owner);
        assert forall|j: int| 0 <= j < after.len() && j != i implies (#[trigger] after[j]).user_id
            != previous_owner by {
            assert(settled[j] == after[j]);
        }
    }
}

} // verus!

use vstd::prelude::*;

use crate::error::NotifierError;

verus! {

/// One folder of the account, in the order the server lists them.
#[derive(Debug)]
pub struct Folder {
    pub name: String,
    pub id: u32,
    pub is_def: bool,
    pub new_msg_count: u32,
}

/// The status envelope of a response: `status` 0 is success, anything else
/// is an error reported by the server, described by `text`.
#[derive(Debug)]
pub struct Message {
    pub status: u32,
    pub text: String,
}

/// The mailbox part of a response.
#[derive(Debug)]
pub struct Mail {
    pub folders: Vec<Folder>,
}

/// A whole "check mail" response.
#[derive(Debug)]
pub struct MailInfo {
    pub message: Message,
    pub mail: Mail,
}

/// Which folder's unread count drives the notifier.
#[derive(Debug)]
pub enum FolderSelector {
    /// The first folder of the list.
    First,
    /// The first folder whose name equals this one exactly (case-sensitive).
    Named(String),
}

/// `i` is the position of the first folder called `name`.
pub open spec fn first_named(folders: Seq<Folder>, name: Seq<char>, i: int) -> bool {
    &&& 0 <= i < folders.len()
    &&& folders[i].name@ == name
    &&& forall|j: int| 0 <= j < i ==> folders[j].name@ != name
}

/// Some folder of the list is picked out by `sel`.
pub open spec fn has_selected(folders: Seq<Folder>, sel: FolderSelector) -> bool {
    match sel {
        FolderSelector::First => folders.len() > 0,
        FolderSelector::Named(name) => exists|i: int|
            0 <= i < folders.len() && folders[i].name@ == name@,
    }
}

/// The unread count of the folder that `sel` picks (meaningful where
/// `has_selected(folders, sel)`).
pub open spec fn selected_count(folders: Seq<Folder>, sel: FolderSelector) -> u32 {
    match sel {
        FolderSelector::First => folders[0].new_msg_count,
        FolderSelector::Named(name) => folders[choose|i: int|
            first_named(folders, name@, i)].new_msg_count,
    }
}

/// At most one position holds the first folder of a given name.
proof fn lemma_first_named_unique(folders: Seq<Folder>, name: Seq<char>, i: int, j: int)
    requires
        first_named(folders, name, i),
        first_named(folders, name, j),
    ensures
        i == j,
{
    if i < j {
        assert(folders[i].name@ == name);
    } else if j < i {
        assert(folders[j].name@ == name);
    }
}

/// Returns the position of the first folder called `name`, if there is one.
pub fn find_folder(folders: &Vec<Folder>, name: &String) -> (r: Option<usize>)
    ensures
        match r {
            Some(i) => first_named(folders@, name@, i as int),
            None => forall|i: int| 0 <= i < folders@.len() ==> folders@[i].name@ != name@,
        },
{
    let mut i: usize = 0;
    while i < folders.len()
        invariant
            0 <= i <= folders@.len(),
            forall|j: int| 0 <= j < i ==> folders@[j].name@ != name@,
        decreases folders@.len() - i,
    {
        if folders[i].name == *name {
            return Some(i);
        }
        i = i + 1;
    }
    None
}

/// Returns the unread count of the folder that `selector` picks, or
/// `FolderNotFound` where it picks none; no other folder stands in for it.
pub fn extract_count(folders: &Vec<Folder>, selector: &FolderSelector) -> (r: Result<
    u32,
    NotifierError,
>)
    ensures
        r is Ok <==> has_selected(folders@, *selector),
        match r {
            Ok(count) => count == selected_count(folders@, *selector),
            Err(e) => e is FolderNotFound,
        },
{
    match selector {
        FolderSelector::First => {
            if folders.len() == 0 {
                Err(NotifierError::FolderNotFound)
            } else {
                Ok(folders[0].new_msg_count)
            }
        },
        FolderSelector::Named(name) => {
            match find_folder(folders, name) {
                Some(i) => {
                    proof {
                        let k = choose|k: int| first_named(folders@, name@, k);
                        lemma_first_named_unique(folders@, name@, i as int, k);
                    }
                    Ok(folders[i].new_msg_count)
                },
                None => Err(NotifierError::FolderNotFound),
            }
        },
    }
}

} // verus!

//! The work of one pass: a dump task for each database, or a restore task
//! for each dump file.

use crate::paths::{
    database_of_dump, dump_file_name, dump_file_path, dump_path, dumped_database, file_name, join,
    joined, lemma_dump_path_file_name,
};
use vstd::prelude::*;
use vstd::string::*;

verus! {

/// One database and the dump file that goes with it: the file to write in a
/// backup, the file to replay in a restore.
#[derive(Debug, Clone, PartialEq, Eq)]
pub struct Task {
    pub database: String,
    pub path: String,
}

pub ghost struct TaskView {
    pub database: Seq<char>,
    pub path: Seq<char>,
}

impl View for Task {
    type V = TaskView;

    open spec fn view(&self) -> TaskView {
        TaskView { database: self.database@, path: self.path@ }
    }
}

impl DeepView for Task {
    type V = TaskView;

    open spec fn deep_view(&self) -> TaskView {
        self@
    }
}

/// The dump task of `database`: its file is `<save_directory>/<database>.sql`.
pub open spec fn dump_task(save_directory: Seq<char>, database: Seq<char>) -> TaskView {
    TaskView { database, path: dump_path(save_directory, database) }
}

/// The dump tasks of a pass over `databases`: one for each, in their order.
pub open spec fn dump_tasks(save_directory: Seq<char>, databases: Seq<Seq<char>>) -> Seq<TaskView> {
    Seq::new(databases.len(), |i: int| dump_task(save_directory, databases[i]))
}

/// What a directory holds under one name.
#[derive(Debug, Clone, PartialEq, Eq)]
pub struct DirectoryEntry {
    pub name: String,
    /// Whether it is a regular file: neither a directory nor anything else.
    pub is_file: bool,
}

pub ghost struct DirectoryEntryView {
    pub name: Seq<char>,
    pub is_file: bool,
}

impl View for DirectoryEntry {
    type V = DirectoryEntryView;

    open spec fn view(&self) -> DirectoryEntryView {
        DirectoryEntryView { name: self.name@, is_file: self.is_file }
    }
}

impl DeepView for DirectoryEntry {
    type V = DirectoryEntryView;

    open spec fn deep_view(&self) -> DirectoryEntryView {
        self@
    }
}

/// Whether `entry` is a dump file: a regular file whose extension is `sql`.
pub open spec fn is_dump_file(entry: DirectoryEntryView) -> bool {
    entry.is_file && dumped_database(entry.name) is Some
}

/// The restore task for the entry `entry` of `restore_directory`, where it
/// is a dump file: the database is named by the file.
pub open spec fn restore_task(restore_directory: Seq<char>, entry: DirectoryEntryView) -> Option<
    TaskView,
> {
    if is_dump_file(entry) {
        Some(
            TaskView {
                database: dumped_database(entry.name)->0,
                path: joined(restore_directory, entry.name),
            },
        )
    } else {
        None
    }
}

/// The restore tasks of a pass over the entries `entries` of
/// `restore_directory`: one for each dump file among them, in their order,
/// and none for anything else.
pub open spec fn restore_tasks(
    restore_directory: Seq<char>,
    entries: Seq<DirectoryEntryView>,
) -> Seq<TaskView>
    decreases entries.len(),
{
    if entries.len() == 0 {
        Seq::empty()
    } else {
        let before = restore_tasks(restore_directory, entries.drop_last());
        match restore_task(restore_directory, entries.last()) {
            Some(task) => before.push(task),
            None => before,
        }
    }
}

/// How many of `entries` are dump files.
pub open spec fn count_dump_files(entries: Seq<DirectoryEntryView>) -> nat
    decreases entries.len(),
{
    if entries.len() == 0 {
        0
    } else {
        count_dump_files(entries.drop_last()) + if is_dump_file(entries.last()) {
            1nat
        } else {
            0nat
        }
    }
}

/// A pass over a list of databases has exactly one dump task for each of
/// them, in the order of the list, and the file of each is
/// `<save_directory>/<database>.sql`: it depends on nothing but the save
/// directory and the name, so a later pass writes the same file again.
pub proof fn lemma_one_dump_task_per_database(
    save_directory: Seq<char>,
    databases: Seq<Seq<char>>,
)
    ensures
        dump_tasks(save_directory, databases).len() == databases.len(),
        forall|i: int|
            0 <= i < databases.len() ==> (#[trigger] dump_tasks(save_directory, databases)[i])
                == dump_task(save_directory, databases[i]),
        forall|i: int|
            0 <= i < databases.len() ==> (#[trigger] dump_tasks(
                save_directory,
                databases,
            )[i]).path == joined(save_directory, databases[i] + seq!['.', 's', 'q', 'l']),
        forall|i: int|
            0 <= i < databases.len() && !databases[i].contains('/') ==> file_name(
                (#[trigger] dump_tasks(save_directory, databases)[i]).path,
            ) == Some(dump_file_name(databases[i])),
{
    assert forall|i: int| 0 <= i < databases.len() && !databases[i].contains('/') implies file_name(
        (#[trigger] dump_tasks(save_directory, databases)[i]).path,
    ) == Some(dump_file_name(databases[i])) by {
        lemma_dump_path_file_name(save_directory, databases[i]);
    }
}

/// A restore pass has one task for each dump file in the directory and no
/// more.
pub proof fn lemma_one_restore_task_per_dump_file(
    restore_directory: Seq<char>,
    entries: Seq<DirectoryEntryView>,
)
    ensures
        restore_tasks(restore_directory, entries).len() == count_dump_files(entries),
        forall|i: int|
            #![trigger restore_tasks(restore_directory, entries)[i]]
            0 <= i < restore_tasks(restore_directory, entries).len() ==> exists|k: int|
                0 <= k < entries.len() && restore_task(restore_directory, #[trigger] entries[k])
                    == Some(restore_tasks(restore_directory, entries)[i]),
    decreases entries.len(),
{
    if entries.len() > 0 {
        let head = entries.drop_last();
        lemma_one_restore_task_per_dump_file(restore_directory, head);
        let tasks = restore_tasks(restore_directory, entries);
        let before = restore_tasks(restore_directory, head);
        assert forall|i: int| 0 <= i < tasks.len() implies exists|k: int|
            0 <= k < entries.len() && restore_task(restore_directory, #[trigger] entries[k])
                == Some(#[trigger] tasks[i]) by {
            if i < before.len() {
                assert(tasks[i] == before[i]);
                let k = choose|k: int|
                    0 <= k < head.len() && restore_task(restore_directory, #[trigger] head[k])
                        == Some(before[i]);
                assert(entries[k] == head[k]);
            } else {
                assert(restore_task(restore_directory, entries[entries.len() - 1]) == Some(
                    tasks[i],
                ));
            }
        }
    }
}

/// There are no more dump files among some entries than there are entries.
pub proof fn lemma_count_dump_files_bound(entries: Seq<DirectoryEntryView>)
    ensures
        count_dump_files(entries) <= entries.len(),
    decreases entries.len(),
{
    if entries.len() > 0 {
        lemma_count_dump_files_bound(entries.drop_last());
    }
}

/// A directory that holds no dump file gives a restore pass nothing to do.
pub proof fn lemma_no_dump_files_no_restore_tasks(
    restore_directory: Seq<char>,
    entries: Seq<DirectoryEntryView>,
)
    requires
        forall|k: int| 0 <= k < entries.len() ==> !is_dump_file(#[trigger] entries[k]),
    ensures
        restore_tasks(restore_directory, entries) == Seq::<TaskView>::empty(),
    decreases entries.len(),
{
    if entries.len() > 0 {
        let head = entries.drop_last();
        assert forall|k: int| 0 <= k < head.len() implies !is_dump_file(#[trigger] head[k]) by {
            assert(head[k] == entries[k]);
        }
        lemma_no_dump_files_no_restore_tasks(restore_directory, head);
        assert(!is_dump_file(entries[entries.len() - 1]));
    }
}

/// The dump tasks of a pass over `databases`.
pub fn plan_dump_tasks(save_directory: &str, databases: &Vec<String>) -> (tasks: Vec<Task>)
    ensures
        tasks.deep_view() == dump_tasks(save_directory@, databases.deep_view()),
{
    let mut tasks: Vec<Task> = Vec::new();
    let mut i: usize = 0;
    while i < databases.len()
        invariant
            i <= databases.len(),
            tasks.len() == i,
            forall|j: int|
                0 <= j < i ==> (#[trigger] tasks[j])@ == dump_task(
                    save_directory@,
                    databases[j]@,
                ),
        decreases databases.len() - i,
    {
        let database: String = databases[i].clone();
        let path: String = dump_file_path(save_directory, database.as_str());
        tasks.push(Task { database, path });
        i = i + 1;
    }
    assert(tasks.deep_view() =~= dump_tasks(save_directory@, databases.deep_view())) by {
        assert forall|j: int| 0 <= j < tasks.len() implies tasks.deep_view()[j] == dump_tasks(
            save_directory@,
            databases.deep_view(),
        )[j] by {
            assert(tasks.deep_view()[j] == tasks[j]@);
            assert(databases.deep_view()[j] == databases[j]@);
        }
    }
    tasks
}

/// The restore tasks of a pass over the entries `entries` of
/// `restore_directory`.
pub fn plan_restore_tasks(restore_directory: &str, entries: &Vec<DirectoryEntry>) -> (tasks: Vec<
    Task,
>)
    ensures
        tasks.deep_view() == restore_tasks(restore_directory@, entries.deep_view()),
{
    let mut tasks: Vec<Task> = Vec::new();
    let mut i: usize = 0;
    assert(entries.deep_view().take(0) =~= Seq::<DirectoryEntryView>::empty());
    assert(tasks.deep_view() =~= Seq::<TaskView>::empty());
    while i < entries.len()
        invariant
            i <= entries.len(),
            tasks.deep_view() == restore_tasks(
                restore_directory@,
                entries.deep_view().take(i as int),
            ),
        decreases entries.len() - i,
    {
        let ghost prefix = entries.deep_view().take(i + 1);
        assert(prefix.drop_last() =~= entries.deep_view().take(i as int));
        assert(prefix.last() == entries[i as int]@);
        if entries[i].is_file {
            match database_of_dump(entries[i].name.as_str()) {
                Some(database) => {
                    let ghost before = tasks.deep_view();
                    let path: String = join(restore_directory, entries[i].name.as_str());
                    let task = Task { database, path };
                    tasks.push(task);
                    assert(tasks.deep_view() =~= before.push(task@));
                },
                None => {},
            }
        }
        i = i + 1;
    }
    assert(entries.deep_view().take(i as int) =~= entries.deep_view());
    tasks
}

} // verus!

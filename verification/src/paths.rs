//! Where dump files live: paths are text with `/` between components.

use crate::text::chars_of;
use vstd::prelude::*;
use vstd::string::*;

verus! {

/// The suffix that marks a dump file: `.sql`.
pub open spec fn dump_suffix() -> Seq<char> {
    seq!['.', 's', 'q', 'l']
}

/// `name` placed under the directory `dir`: one `/` goes between the two
/// unless `dir` is empty or already ends in one. A `name` that starts with
/// `/` is placed under `dir` like any other: the result never leaves `dir`.
pub open spec fn joined(dir: Seq<char>, name: Seq<char>) -> Seq<char> {
    if dir.len() == 0 || dir.last() == '/' {
        dir + name
    } else {
        dir + seq!['/'] + name
    }
}

/// The name of the dump file of `database`: `<database>.sql`.
pub open spec fn dump_file_name(database: Seq<char>) -> Seq<char> {
    database + dump_suffix()
}

/// The path of the dump file of `database` under `save_directory`:
/// `<save_directory>/<database>.sql`.
pub open spec fn dump_path(save_directory: Seq<char>, database: Seq<char>) -> Seq<char> {
    joined(save_directory, dump_file_name(database))
}

/// The database that a file named `file_name` is a dump of: the name without
/// its extension where that extension is `sql`, and none for any other name.
/// A name that is nothing but `.sql` has no extension.
pub open spec fn dumped_database(file_name: Seq<char>) -> Option<Seq<char>> {
    if file_name.len() > 4 && file_name.skip(file_name.len() - 4) == dump_suffix() {
        Some(file_name.take(file_name.len() - 4))
    } else {
        None
    }
}

/// How much of `path` stands before its components: one character for a
/// path that starts at the root, and one for a path that starts with `.` as
/// a component of its own.
pub open spec fn root_len(path: Seq<char>) -> int {
    if path.len() > 0 && (path[0] == '/' || (path[0] == '.' && (path.len() == 1 || path[1]
        == '/'))) {
        1
    } else {
        0
    }
}

/// Where the last segment of `path` between `start` and `end` begins: after
/// the last `/` in that stretch, or at `start` where it has none.
pub open spec fn segment_start(path: Seq<char>, start: int, end: int) -> int
    decreases end - start,
{
    if end <= start || path[end - 1] == '/' {
        end
    } else {
        segment_start(path, start, end - 1)
    }
}

/// Whether a segment stands for no component: it is empty or `.`.
pub open spec fn is_skipped(segment: Seq<char>) -> bool {
    segment.len() == 0 || segment == seq!['.']
}

/// Where the last component of `path` between `start` and `end` ends:
/// segments at the end that stand for no component are passed over, with
/// the `/` before each. The result is `start` where no component is left.
pub open spec fn trim_end(path: Seq<char>, start: int, end: int) -> int
    decreases end - start,
{
    if end <= start {
        end
    } else {
        let begin = segment_start(path, start, end);
        let cut = if begin > start {
            begin - 1
        } else {
            begin
        };
        if is_skipped(path.subrange(begin, end)) && start <= cut < end {
            trim_end(path, start, cut)
        } else {
            end
        }
    }
}

/// The final component of `path`, as `std::path` on Unix has it: the last
/// segment between `/` that is neither empty nor `.`. There is none where no
/// such segment is left (the empty path, the root, `.`) and where that
/// segment is `..`.
pub open spec fn file_name(path: Seq<char>) -> Option<Seq<char>> {
    let start = root_len(path);
    let end = trim_end(path, start, path.len() as int);
    let name = path.subrange(segment_start(path, start, end), end);
    if end <= start || name == seq!['.', '.'] {
        None
    } else {
        Some(name)
    }
}

/// The directory that holds `path`, as `std::path` on Unix has it: `path`
/// without its final component, without the `/` before it and without the
/// segments before that which stand for no component. It is empty for a
/// single relative component, and there is none for the empty path and for
/// a path that is nothing but the root.
pub open spec fn parent_directory(path: Seq<char>) -> Option<Seq<char>> {
    let start = root_len(path);
    let end = trim_end(path, start, path.len() as int);
    if end <= start {
        if start == 1 && path[0] == '.' {
            Some(Seq::empty())
        } else {
            None
        }
    } else {
        let begin = segment_start(path, start, end);
        let cut = if begin > start {
            begin - 1
        } else {
            begin
        };
        Some(path.take(trim_end(path, start, cut)))
    }
}

/// A dump file is named after its database, and its name leads back to it.
pub proof fn lemma_dump_file_names_database(database: Seq<char>)
    requires
        database.len() > 0,
    ensures
        dumped_database(dump_file_name(database)) == Some(database),
{
    let name = dump_file_name(database);
    assert(name.skip(name.len() - 4) =~= dump_suffix());
    assert(name.take(name.len() - 4) =~= database);
}

/// Two databases share a dump file name only if they are the same database.
pub proof fn lemma_dump_file_name_injective(a: Seq<char>, b: Seq<char>)
    requires
        dump_file_name(a) == dump_file_name(b),
    ensures
        a == b,
{
    let name = dump_file_name(a);
    assert(name.take(name.len() - 4) =~= a);
    assert(name.take(name.len() - 4) =~= b);
}

/// The last segment of a stretch begins where the stretch is free of `/`
/// from there on and a `/`, or the start, stands right before.
proof fn lemma_segment_start(path: Seq<char>, start: int, begin: int, end: int)
    requires
        0 <= start <= begin <= end <= path.len(),
        forall|i: int| begin <= i < end ==> path[i] != '/',
        begin == start || path[begin - 1] == '/',
    ensures
        segment_start(path, start, end) == begin,
    decreases end - begin,
{
    if begin < end {
        lemma_segment_start(path, start, begin, end - 1);
    }
}

/// The dump file of a database whose name holds no `/` lies directly under
/// the save directory, under the name `<database>.sql`, and that name leads
/// back to the database.
pub proof fn lemma_dump_path_file_name(save_directory: Seq<char>, database: Seq<char>)
    requires
        !database.contains('/'),
    ensures
        file_name(dump_path(save_directory, database)) == Some(dump_file_name(database)),
        dumped_database(dump_file_name(database)) == if database.len() > 0 {
            Some(database)
        } else {
            None::<Seq<char>>
        },
{
    let name = dump_file_name(database);
    let path = dump_path(save_directory, database);
    let prefix = if save_directory.len() == 0 || save_directory.last() == '/' {
        save_directory
    } else {
        save_directory + seq!['/']
    };
    assert(path =~= prefix + name);
    assert forall|k: int| 0 <= k < name.len() implies name[k] != '/' by {
        if k < database.len() {
            assert(database[k] == name[k]);
        }
    }
    let start = root_len(path);
    let begin = prefix.len() as int;
    let end = path.len() as int;
    assert(name[0] != '/' && name[1] != '/');
    assert(start <= begin) by {
        if begin == 0 {
            assert(path[0] == name[0] && path[1] == name[1]);
        }
    }
    assert forall|i: int| begin <= i < end implies path[i] != '/' by {
        assert(path[i] == name[i - begin]);
    }
    assert(begin == start || path[begin - 1] == '/') by {
        if begin > 0 {
            assert(path[begin - 1] == prefix.last());
        }
    }
    lemma_segment_start(path, start, begin, end);
    assert(path.subrange(begin, end) =~= name);
    assert(!is_skipped(name));
    assert(trim_end(path, start, end) == end);
    assert(name != seq!['.', '.']);
    if database.len() > 0 {
        lemma_dump_file_names_database(database);
    } else {
        assert(name.len() == 4);
    }
}

/// Places `name` under the directory `dir`.
pub fn join(dir: &str, name: &str) -> (path: String)
    ensures
        path@ == joined(dir@, name@),
{
    let chars = chars_of(dir);
    let n: usize = chars.len();
    if n == 0 || chars[n - 1] == '/' {
        dir.to_owned().concat(name)
    } else {
        proof {
            reveal_strlit("/");
        }
        let path = dir.to_owned().concat("/").concat(name);
        assert("/"@ =~= seq!['/']);
        path
    }
}

/// The path of the dump file of `database` under `save_directory`.
pub fn dump_file_path(save_directory: &str, database: &str) -> (path: String)
    ensures
        path@ == dump_path(save_directory@, database@),
{
    proof {
        reveal_strlit(".sql");
    }
    let name: String = database.to_owned().concat(".sql");
    assert(".sql"@ =~= dump_suffix());
    join(save_directory, name.as_str())
}

/// The database that the file `file_name` is a dump of, if it is one.
pub fn database_of_dump(file_name: &str) -> (database: Option<String>)
    ensures
        match dumped_database(file_name@) {
            Some(name) => database matches Some(d) && d@ == name,
            None => database is None,
        },
{
    let chars = chars_of(file_name);
    let n: usize = chars.len();
    if n > 4 && chars[n - 4] == '.' && chars[n - 3] == 's' && chars[n - 2] == 'q' && chars[n - 1]
        == 'l' {
        assert(file_name@.skip(n - 4) =~= dump_suffix());
        assert(file_name@.take(n - 4) =~= file_name@.subrange(0, n - 4));
        Some(file_name.substring_char(0, n - 4).to_owned())
    } else {
        proof {
            if n > 4 {
                let tail = file_name@.skip(n - 4);
                assert(tail[0] == chars@[n - 4]);
                assert(tail[1] == chars@[n - 3]);
                assert(tail[2] == chars@[n - 2]);
                assert(tail[3] == chars@[n - 1]);
            }
        }
        None
    }
}

fn root_len_of(chars: &Vec<char>) -> (start: usize)
    ensures
        start == root_len(chars@),
        start <= chars.len(),
{
    let n: usize = chars.len();
    if n > 0 && (chars[0] == '/' || (chars[0] == '.' && (n == 1 || chars[1] == '/'))) {
        1
    } else {
        0
    }
}

fn segment_start_of(chars: &Vec<char>, start: usize, end: usize) -> (begin: usize)
    requires
        start <= end <= chars.len(),
    ensures
        begin == segment_start(chars@, start as int, end as int),
        start <= begin <= end,
{
    let mut begin: usize = end;
    while begin > start && chars[begin - 1] != '/'
        invariant
            start <= begin <= end <= chars.len(),
            segment_start(chars@, start as int, end as int) == segment_start(
                chars@,
                start as int,
                begin as int,
            ),
        decreases begin,
    {
        begin = begin - 1;
    }
    begin
}

fn trim_end_of(chars: &Vec<char>, start: usize, end: usize) -> (last: usize)
    requires
        start <= end <= chars.len(),
    ensures
        last == trim_end(chars@, start as int, end as int),
        start <= last <= end,
{
    let mut last: usize = end;
    while last > start
        invariant
            start <= last <= end <= chars.len(),
            trim_end(chars@, start as int, end as int) == trim_end(
                chars@,
                start as int,
                last as int,
            ),
        decreases last,
    {
        let begin: usize = segment_start_of(chars, start, last);
        let ghost segment = chars@.subrange(begin as int, last as int);
        if begin == last {
            assert(is_skipped(segment));
        } else if last - begin == 1 && chars[begin] == '.' {
            assert(segment =~= seq!['.']);
        } else {
            assert(!is_skipped(segment)) by {
                if segment.len() == 1 {
                    assert(segment[0] != '.');
                }
            }
            return last;
        }
        last = if begin > start {
            begin - 1
        } else {
            begin
        };
    }
    last
}

/// The directory that holds `path`, if `path` has one.
pub fn parent_of(path: &str) -> (dir: Option<String>)
    ensures
        dir.deep_view() == parent_directory(path@),
{
    let chars = chars_of(path);
    let start: usize = root_len_of(&chars);
    let end: usize = trim_end_of(&chars, start, chars.len());
    if end <= start {
        if start == 1 && chars[0] == '.' {
            Some(String::new())
        } else {
            None
        }
    } else {
        let begin: usize = segment_start_of(&chars, start, end);
        let cut: usize = if begin > start {
            begin - 1
        } else {
            begin
        };
        let keep: usize = trim_end_of(&chars, start, cut);
        assert(path@.take(keep as int) =~= path@.subrange(0, keep as int));
        Some(path.substring_char(0, keep).to_owned())
    }
}

/// The final component of `path`, if `path` has one.
pub fn file_name_of(path: &str) -> (name: Option<String>)
    ensures
        name.deep_view() == file_name(path@),
{
    let chars = chars_of(path);
    let start: usize = root_len_of(&chars);
    let end: usize = trim_end_of(&chars, start, chars.len());
    if end <= start {
        return None;
    }
    let begin: usize = segment_start_of(&chars, start, end);
    let ghost segment = path@.subrange(begin as int, end as int);
    if end - begin == 2 && chars[begin] == '.' && chars[begin + 1] == '.' {
        assert(segment =~= seq!['.', '.']);
        None
    } else {
        assert(segment != seq!['.', '.']) by {
            if segment.len() == 2 {
                assert(segment[0] != '.' || segment[1] != '.');
            }
        }
        Some(path.substring_char(begin, end).to_owned())
    }
}

} // verus!

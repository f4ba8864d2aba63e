//! Where a converted file is written.
//!
//! Paths are text in which `/` parts one directory from the next. A source
//! file is known by its path below the task's source directory; its result
//! goes below the output directory, either under the same subdirectories or,
//! by default, directly into the output directory under its own name. The
//! name keeps its stem and gets the extension of the raster format.
//!
//! A path may start with parts that only say "here", as `./a` does. Where a
//! file's path is taken from the source directory, such parts are passed
//! over on both, so that `./a` and `a` name one directory.

use vstd::prelude::*;
use crate::text::{append_chars, chars_of, string_of};

verus! {

/// The character between the parts of a path.
pub open spec fn separator() -> char {
    '/'
}

/// The extension of a raster file, without the dot.
pub open spec fn raster_extension() -> Seq<char> {
    seq!['p', 'n', 'g']
}

/// What a source file's name ends in, as a pattern for discovery: any file
/// with the vector extension, in the directory or anywhere below it.
pub open spec fn vector_pattern() -> Seq<char> {
    seq!['*', '*', '/', '*', '.', 's', 'v', 'g']
}

/// The last index at which `c` stands in `s`, or -1 if it stands nowhere.
pub open spec fn last_index_of(s: Seq<char>, c: char) -> int
    decreases s.len(),
{
    if s.len() == 0 {
        -1
    } else if s.last() == c {
        s.len() - 1
    } else {
        last_index_of(s.drop_last(), c)
    }
}

/// Whether a path starts at the root of the file system.
pub open spec fn is_absolute(path: Seq<char>) -> bool {
    path.len() > 0 && path[0] == separator()
}

/// Where the last part of a path begins: behind its last separator.
pub open spec fn name_start(path: Seq<char>) -> int {
    last_index_of(path, separator()) + 1
}

/// The last part of a path: what follows its last separator.
pub open spec fn base_name(path: Seq<char>) -> Seq<char> {
    path.skip(name_start(path))
}

/// A path without its last part: all up to and with its last separator,
/// nothing where it has none.
pub open spec fn directory_of(path: Seq<char>) -> Seq<char> {
    path.take(name_start(path))
}

/// A file name without its extension: what stands before its last dot. A
/// name without a dot, or whose only dot is its first character, is its own
/// stem.
pub open spec fn stem(name: Seq<char>) -> Seq<char> {
    let dot = last_index_of(name, '.');
    if dot <= 0 {
        name
    } else {
        name.take(dot)
    }
}

/// A file name with its extension replaced by `extension`.
pub open spec fn with_extension(name: Seq<char>, extension: Seq<char>) -> Seq<char> {
    stem(name) + seq!['.'] + extension
}

/// `rest` below `root`. An absolute `rest` stands for itself, and so does
/// any `rest` below an empty `root`.
pub open spec fn join(root: Seq<char>, rest: Seq<char>) -> Seq<char> {
    if is_absolute(rest) || root.len() == 0 {
        rest
    } else if root.last() == separator() {
        root + rest
    } else {
        root + seq![separator()] + rest
    }
}

/// `path` without the separators it starts with.
pub open spec fn without_leading_separators(path: Seq<char>) -> Seq<char>
    decreases path.len(),
{
    if path.len() > 0 && path[0] == separator() {
        without_leading_separators(path.skip(1))
    } else {
        path
    }
}

/// Whether `path` lies in or below `root`: it begins with `root`, and
/// `root` ends where a part of `path` ends.
pub open spec fn is_below(root: Seq<char>, path: Seq<char>) -> bool {
    &&& 0 < root.len() <= path.len()
    &&& path.take(root.len() as int) == root
    &&& (root.last() == separator() || path.len() == root.len() || path[root.len() as int]
        == separator())
}

/// `path` behind the parts that it starts with and that only say "here":
/// a dot that a separator follows, or that ends the path. `after_dot` says
/// that such a dot was just passed, so that the separators behind it are
/// passed too.
pub open spec fn past_dots(path: Seq<char>, after_dot: bool) -> Seq<char>
    decreases path.len(),
{
    if after_dot && path.len() > 0 && path[0] == separator() {
        past_dots(path.skip(1), true)
    } else if path.len() > 0 && path[0] == '.' && (path.len() == 1 || path[1] == separator()) {
        past_dots(path.skip(1), true)
    } else {
        path
    }
}

/// A path without the parts that it starts with and that only say "here":
/// `./a` is `a`, and `.` is the empty path. A `..` is kept.
pub open spec fn without_leading_dots(path: Seq<char>) -> Seq<char> {
    past_dots(path, false)
}

/// `path` as seen from `root`, both taken without the dots that they start
/// with, so that `./a` and `a` name one directory. A path that does not
/// lie below `root` is kept whole.
pub open spec fn relative_to(root: Seq<char>, path: Seq<char>) -> Seq<char> {
    let base = without_leading_dots(root);
    let whole = without_leading_dots(path);
    if is_below(base, whole) {
        without_leading_separators(whole.skip(base.len() as int))
    } else {
        whole
    }
}

/// The name under which the result of a source file is written.
pub open spec fn output_name(relative: Seq<char>) -> Seq<char> {
    with_extension(base_name(relative), raster_extension())
}

/// The output path of a source file, as seen from the output directory.
pub open spec fn output_relative(relative: Seq<char>, preserve_subdirs: bool) -> Seq<char> {
    if preserve_subdirs {
        directory_of(relative) + output_name(relative)
    } else {
        output_name(relative)
    }
}

/// The output path of the source file at `relative` below the source
/// directory, for a task that writes to `output_root`.
pub open spec fn resolve_path(
    output_root: Seq<char>,
    relative: Seq<char>,
    preserve_subdirs: bool,
) -> Seq<char> {
    join(output_root, output_relative(relative, preserve_subdirs))
}

/// Whether any part of `s` is the character `c`.
pub open spec fn has_char(s: Seq<char>, c: char) -> bool {
    exists|i: int| 0 <= i < s.len() && s[i] == c
}

/// Finds where `c` stands last in `s`.
fn last_index(s: &Vec<char>, c: char) -> (found: Option<usize>)
    ensures
        match found {
            Some(i) => i < s.len() && i as int == last_index_of(s@, c),
            None => last_index_of(s@, c) == -1,
        },
{
    let mut i: usize = s.len();
    assert(s@.take(i as int) =~= s@);
    while i > 0
        invariant
            i <= s.len(),
            last_index_of(s@, c) == last_index_of(s@.take(i as int), c),
        decreases i,
    {
        if s[i - 1] == c {
            return Some(i - 1);
        }
        assert(s@.take(i as int).drop_last() =~= s@.take(i - 1));
        i = i - 1;
    }
    None
}

/// The elements of `s` from index `from` up to, not with, index `to`.
fn part_of(s: &Vec<char>, from: usize, to: usize) -> (part: Vec<char>)
    requires
        from <= to <= s.len(),
    ensures
        part@ == s@.subrange(from as int, to as int),
{
    let mut part: Vec<char> = Vec::new();
    let mut i: usize = from;
    while i < to
        invariant
            from <= i <= to <= s.len(),
            part@ == s@.subrange(from as int, i as int),
        decreases to - i,
    {
        part.push(s[i]);
        i = i + 1;
    }
    part
}

/// Where the last part of `path` begins.
fn name_start_of(path: &Vec<char>) -> (start: usize)
    ensures
        start as int == name_start(path@),
        start <= path.len(),
{
    match last_index(path, '/') {
        Some(i) => i + 1,
        None => 0,
    }
}

/// The name of the result of the source file at `relative`.
fn output_name_of(relative: &Vec<char>) -> (name: Vec<char>)
    ensures
        name@ == output_name(relative@),
{
    let start = name_start_of(relative);
    let base = part_of(relative, start, relative.len());
    proof {
        lemma_last_index_of(base@, '.');
    }
    let mut name = match last_index(&base, '.') {
        Some(dot) => {
            if dot == 0 {
                assert(base@.subrange(0, base.len() as int) =~= base@);
                part_of(&base, 0, base.len())
            } else {
                part_of(&base, 0, dot)
            }
        },
        None => {
            assert(base@.subrange(0, base.len() as int) =~= base@);
            part_of(&base, 0, base.len())
        },
    };
    assert(name@ == stem(base@));
    name.push('.');
    name.push('p');
    name.push('n');
    name.push('g');
    assert(name@ =~= stem(base@) + seq!['.'] + raster_extension());
    name
}

/// `rest` below `root`.
fn join_chars(root: &Vec<char>, rest: &Vec<char>) -> (joined: Vec<char>)
    ensures
        joined@ == join(root@, rest@),
{
    let mut joined: Vec<char> = Vec::new();
    if (rest.len() > 0 && rest[0] == '/') || root.len() == 0 {
        append_chars(&mut joined, rest);
        assert(joined@ =~= rest@);
    } else {
        append_chars(&mut joined, root);
        if root[root.len() - 1] != '/' {
            joined.push('/');
        }
        append_chars(&mut joined, rest);
        assert(joined@ =~= join(root@, rest@));
    }
    joined
}

/// The output path of a source file.
///
/// `relative_source_path` is the file's path below the task's source
/// directory and `output_root` the task's output directory. With
/// `preserve_subdirs` the result lies under the same subdirectories below
/// the output directory; without it the result lies directly in the output
/// directory, so that of two source files with one name the one converted
/// later overwrites the other. In both cases the file's extension is
/// replaced by that of the raster format. The source directory takes no
/// part in the result, since the relative path is already taken from it.
/// Parts such as `..` are kept as they are.
#[allow(unused_variables)]
pub fn resolve(
    source_root: &str,
    output_root: &str,
    relative_source_path: &str,
    preserve_subdirs: bool,
) -> (output_path: String)
    ensures
        output_path@ == resolve_path(output_root@, relative_source_path@, preserve_subdirs),
{
    let root = chars_of(output_root);
    let relative = chars_of(relative_source_path);
    let name = output_name_of(&relative);
    let rest = if preserve_subdirs {
        let start = name_start_of(&relative);
        let mut rest = part_of(&relative, 0, start);
        append_chars(&mut rest, &name);
        rest
    } else {
        name
    };
    let joined = join_chars(&root, &rest);
    string_of(&joined)
}

/// `path` without the dots that it starts with.
fn without_dots(path: &Vec<char>) -> (plain: Vec<char>)
    ensures
        plain@ == without_leading_dots(path@),
{
    let mut i: usize = 0;
    let mut after_dot = false;
    assert(path@.skip(0) =~= path@);
    loop
        invariant
            i <= path.len(),
            past_dots(path@, false) == past_dots(path@.skip(i as int), after_dot),
        ensures
            i <= path.len(),
            without_leading_dots(path@) == path@.skip(i as int),
        decreases path.len() - i,
    {
        let ghost rest = path@.skip(i as int);
        if i < path.len() {
            assert(rest[0] == path@[i as int]);
            assert(rest.skip(1) =~= path@.skip(i + 1));
        }
        if after_dot && i < path.len() && path[i] == '/' {
            i = i + 1;
        } else if i < path.len() && path[i] == '.' && (i + 1 == path.len() || path[i + 1] == '/') {
            assert(rest.len() == 1 || rest[1] == path@[i + 1]);
            after_dot = true;
            i = i + 1;
        } else {
            assert(rest.len() > 1 ==> rest[1] == path@[i + 1]);
            break ;
        }
    }
    let plain = part_of(path, i, path.len());
    assert(plain@ =~= path@.skip(i as int));
    plain
}

/// The path of `path` below `source_root`, both taken without the dots
/// that they start with; `path` itself, without such dots, where it does
/// not lie below `source_root`.
pub fn relative_path(source_root: &str, path: &str) -> (relative: String)
    ensures
        relative@ == relative_to(source_root@, path@),
{
    let given_root = chars_of(source_root);
    let given_path = chars_of(path);
    let root = without_dots(&given_root);
    let whole = without_dots(&given_path);
    let n = root.len();
    if n == 0 || n > whole.len() {
        return string_of(&whole);
    }
    let mut i: usize = 0;
    while i < n
        invariant
            i <= n,
            n == root.len(),
            0 < n <= whole.len(),
            root@ == without_leading_dots(source_root@),
            whole@ == without_leading_dots(path@),
            forall|k: int| 0 <= k < i ==> whole@[k] == root@[k],
        decreases n - i,
    {
        if whole[i] != root[i] {
            assert(whole@.take(n as int)[i as int] != root@[i as int]);
            return string_of(&whole);
        }
        i = i + 1;
    }
    assert(whole@.take(n as int) =~= root@);
    if !(root[n - 1] == '/' || whole.len() == n || whole[n] == '/') {
        return string_of(&whole);
    }
    let mut from: usize = n;
    while from < whole.len() && whole[from] == '/'
        invariant
            n <= from <= whole.len(),
            without_leading_separators(whole@.skip(n as int)) == without_leading_separators(
                whole@.skip(from as int),
            ),
        decreases whole.len() - from,
    {
        assert(whole@.skip(from as int).skip(1) =~= whole@.skip(from + 1));
        from = from + 1;
    }
    let rest = part_of(&whole, from, whole.len());
    assert(rest@ =~= whole@.skip(from as int));
    string_of(&rest)
}

/// The directory in which `path` lies, with the separator that ends it;
/// empty for a path of one part.
pub fn parent_directory(path: &str) -> (directory: String)
    ensures
        directory@ == directory_of(path@),
{
    let whole = chars_of(path);
    let start = name_start_of(&whole);
    let directory = part_of(&whole, 0, start);
    string_of(&directory)
}

/// The pattern that finds the source files of a task: every file with the
/// vector extension in `source_dir` or anywhere below it.
pub fn discovery_pattern(source_dir: &str) -> (pattern: String)
    ensures
        pattern@ == join(source_dir@, vector_pattern()),
{
    let root = chars_of(source_dir);
    let mut rest: Vec<char> = Vec::new();
    rest.push('*');
    rest.push('*');
    rest.push('/');
    rest.push('*');
    rest.push('.');
    rest.push('s');
    rest.push('v');
    rest.push('g');
    assert(rest@ =~= vector_pattern());
    let joined = join_chars(&root, &rest);
    string_of(&joined)
}

/// `last_index_of` finds an index of `c` behind which `c` does not stand
/// again, and -1 exactly where `c` does not stand at all.
pub proof fn lemma_last_index_of(s: Seq<char>, c: char)
    ensures
        -1 <= last_index_of(s, c) < s.len(),
        last_index_of(s, c) >= 0 ==> s[last_index_of(s, c)] == c,
        forall|j: int| last_index_of(s, c) < j < s.len() ==> s[j] != c,
    decreases s.len(),
{
    if s.len() > 0 && s.last() != c {
        let front = s.drop_last();
        lemma_last_index_of(front, c);
        assert forall|j: int| last_index_of(s, c) < j < s.len() implies s[j] != c by {
            if j < front.len() {
                assert(front[j] == s[j]);
            }
        }
    }
}

/// A path is its directory followed by its last part, and the last part
/// holds no separator.
pub proof fn lemma_path_parts(path: Seq<char>)
    ensures
        directory_of(path) + base_name(path) == path,
        !has_char(base_name(path), separator()),
        directory_of(path).len() == 0 || directory_of(path).last() == separator(),
{
    lemma_last_index_of(path, separator());
    assert(directory_of(path) + base_name(path) =~= path);
}

/// Where `c` stands last in `front + back` when it stands nowhere in
/// `back`: where it stands last in `front`.
pub proof fn lemma_last_index_of_front(front: Seq<char>, back: Seq<char>, c: char)
    requires
        !has_char(back, c),
    ensures
        last_index_of(front + back, c) == last_index_of(front, c),
    decreases back.len(),
{
    if back.len() == 0 {
        assert(front + back =~= front);
    } else {
        let whole = front + back;
        assert(whole.last() == back.last());
        assert(back[back.len() - 1] != c);
        assert(whole.drop_last() =~= front + back.drop_last());
        assert(!has_char(back.drop_last(), c)) by {
            if has_char(back.drop_last(), c) {
                let i = choose|i: int| 0 <= i < back.drop_last().len() && back.drop_last()[i] == c;
                assert(back[i] == c);
            }
        }
        lemma_last_index_of_front(front, back.drop_last(), c);
    }
}

/// A name with its extension replaced holds a separator only if the name
/// or the extension held one.
pub proof fn lemma_with_extension_keeps_parts(name: Seq<char>, extension: Seq<char>)
    requires
        !has_char(name, separator()),
        !has_char(extension, separator()),
    ensures
        !has_char(with_extension(name, extension), separator()),
{
    lemma_last_index_of(name, '.');
    let out = with_extension(name, extension);
    if has_char(out, separator()) {
        let i = choose|i: int| 0 <= i < out.len() && out[i] == separator();
        let s = stem(name);
        if i < s.len() {
            assert(name[i] == separator());
        } else if i > s.len() {
            assert(extension[i - s.len() - 1] == separator());
        }
    }
}

/// The name of a result holds no separator.
pub proof fn lemma_output_name_is_one_part(relative: Seq<char>)
    ensures
        !has_char(output_name(relative), separator()),
{
    lemma_path_parts(relative);
    assert(!has_char(raster_extension(), separator())) by {
        if has_char(raster_extension(), separator()) {
            let i = choose|i: int|
                0 <= i < raster_extension().len() && raster_extension()[i] == separator();
            assert(raster_extension()[i] != separator());
        }
    }
    lemma_with_extension_keeps_parts(base_name(relative), raster_extension());
}

/// The parts of a joined path: below a root, a relative path keeps its
/// last part, and its directory is the directory joined to the root.
pub proof fn lemma_join_parts(root: Seq<char>, rest: Seq<char>)
    requires
        !is_absolute(rest),
    ensures
        base_name(join(root, rest)) == base_name(rest),
        directory_of(join(root, rest)) == join(root, directory_of(rest)),
{
    let c = separator();
    let d = directory_of(rest);
    let b = base_name(rest);
    let joined = join(root, rest);
    let joined_dir = join(root, d);
    lemma_path_parts(rest);
    assert(!is_absolute(d)) by {
        if d.len() > 0 {
            assert(d[0] == rest[0]);
        }
    }
    assert(joined =~= joined_dir + b) by {
        assert(rest =~= d + b);
        if root.len() == 0 {
        } else if root.last() == c {
            assert(root + (d + b) =~= (root + d) + b);
        } else {
            assert(root + seq![c] + (d + b) =~= (root + seq![c] + d) + b);
        }
    }
    assert(joined_dir.len() == 0 || joined_dir.last() == c) by {
        if root.len() > 0 && d.len() == 0 {
            if root.last() == c {
                assert(root + d =~= root);
            }
        }
    }
    lemma_last_index_of_front(joined_dir, b, c);
    lemma_last_index_of(joined_dir, c);
    assert(last_index_of(joined_dir, c) == joined_dir.len() - 1);
    assert(name_start(joined) == joined_dir.len());
    assert((joined_dir + b).skip(joined_dir.len() as int) =~= b);
    assert((joined_dir + b).take(joined_dir.len() as int) =~= joined_dir);
}

/// With subdirectories flattened, the result's file name is the source
/// file's own name with the raster extension, and no separator of the
/// source file's relative path is part of it: the result lies directly in
/// the output directory.
pub proof fn lemma_flattened_name_has_no_separator(output_root: Seq<char>, relative: Seq<char>)
    ensures
        base_name(resolve_path(output_root, relative, false)) == output_name(relative),
        !has_char(base_name(resolve_path(output_root, relative, false)), separator()),
        directory_of(resolve_path(output_root, relative, false)) == join(
            output_root,
            Seq::<char>::empty(),
        ),
{
    let name = output_name(relative);
    lemma_output_name_is_one_part(relative);
    assert(!is_absolute(name)) by {
        if name.len() > 0 && name[0] == separator() {
            assert(has_char(name, separator()));
        }
    }
    lemma_join_parts(output_root, name);
    lemma_path_parts(name);
    lemma_last_index_of(name, separator());
    assert(last_index_of(name, separator()) == -1) by {
        let k = last_index_of(name, separator());
        if k >= 0 {
            assert(name[k] == separator());
        }
    }
    assert(base_name(name) =~= name);
    assert(directory_of(name) =~= Seq::<char>::empty());
}

/// With subdirectories preserved, the result of a source file lies below
/// the output directory under the very directories under which the source
/// file lies below the source directory, and has the source file's name
/// with the raster extension.
pub proof fn lemma_preserved_structure(output_root: Seq<char>, relative: Seq<char>)
    requires
        !is_absolute(relative),
    ensures
        directory_of(resolve_path(output_root, relative, true)) == join(
            output_root,
            directory_of(relative),
        ),
        base_name(resolve_path(output_root, relative, true)) == output_name(relative),
{
    let c = separator();
    let d = directory_of(relative);
    let name = output_name(relative);
    let rest = output_relative(relative, true);
    lemma_path_parts(relative);
    lemma_output_name_is_one_part(relative);
    assert(!is_absolute(rest)) by {
        if rest.len() > 0 && rest[0] == c {
            if d.len() > 0 {
                assert(rest[0] == d[0]);
                assert(d[0] == relative[0]);
            } else {
                assert(name[0] == c);
                assert(has_char(name, c));
            }
        }
    }
    lemma_last_index_of_front(d, name, c);
    lemma_last_index_of(d, c);
    if d.len() > 0 {
        assert(d.last() == c);
    }
    assert(name_start(rest) == d.len());
    assert(directory_of(rest) =~= d);
    assert(base_name(rest) =~= name);
    lemma_join_parts(output_root, rest);
}

/// A path with a part in front that only says "here".
pub open spec fn dotted(path: Seq<char>) -> Seq<char> {
    seq!['.', separator()] + path
}

/// A dot and a separator in front of a path that does not start at the
/// root change nothing: `./a` and `a` are one path.
pub proof fn lemma_dotted_path_is_the_same(path: Seq<char>)
    requires
        !is_absolute(path),
    ensures
        without_leading_dots(dotted(path)) == without_leading_dots(path),
{
    let whole = dotted(path);
    assert(whole.skip(1) =~= seq![separator()] + path);
    assert(whole.skip(1).skip(1) =~= path);
    assert(past_dots(whole, false) == past_dots(whole.skip(1), true));
    assert(past_dots(whole.skip(1), true) == past_dots(path, true));
}

/// A source directory named with a dot in front is the directory named
/// without it, and so is a path: what a path is as seen from a directory
/// does not rest on such dots.
pub proof fn lemma_dot_names_the_same_directory(root: Seq<char>, path: Seq<char>)
    requires
        !is_absolute(root),
        !is_absolute(path),
    ensures
        relative_to(dotted(root), path) == relative_to(root, path),
        relative_to(root, dotted(path)) == relative_to(root, path),
        relative_to(dotted(root), dotted(path)) == relative_to(root, path),
{
    lemma_dotted_path_is_the_same(root);
    lemma_dotted_path_is_the_same(path);
}

} // verus!

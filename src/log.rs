use vstd::prelude::*;
use vstd::string::*;

verus! {

/// The marker that ends a logged path when that path names a directory.
pub open spec fn dir_suffix(is_dir: bool) -> Seq<char> {
    if is_dir {
        seq!['/']
    } else {
        Seq::empty()
    }
}

/// The line logged before a filesystem operation named `op` that goes from
/// `src` to `dst`: `% <op>: <src> -> <dst>`, with `/` after `dst` when it is
/// a directory.
pub open spec fn transfer_line(op: Seq<char>, src: Seq<char>, dst: Seq<char>, dst_is_dir: bool) -> Seq<char> {
    "% "@ + op + ": "@ + src + " -> "@ + dst + dir_suffix(dst_is_dir)
}

/// The line logged before creating the directory `path`.
pub open spec fn make_dir_line(path: Seq<char>, is_dir: bool) -> Seq<char> {
    "% make_dir: "@ + path + dir_suffix(is_dir)
}

/// The arguments of a command, each separated from the next by one space.
pub open spec fn space_joined(args: Seq<Seq<char>>) -> Seq<char>
    decreases args.len(),
{
    if args.len() == 0 {
        Seq::empty()
    } else if args.len() == 1 {
        args[0]
    } else {
        space_joined(args.drop_last()) + " "@ + args.last()
    }
}

/// The line logged before a command runs: `% <program> <args...>`.
pub open spec fn command_line(program: Seq<char>, args: Seq<Seq<char>>) -> Seq<char> {
    "% "@ + program + " "@ + space_joined(args)
}

/// Appends `/` to `line` when `is_dir` holds.
fn push_dir_suffix(line: &mut String, is_dir: bool)
    ensures
        final(line)@ == old(line)@ + dir_suffix(is_dir),
{
    if is_dir {
        line.append("/");
        proof {
            reveal_strlit("/");
        }
        assert(final(line)@ =~= old(line)@ + dir_suffix(is_dir));
    } else {
        assert(old(line)@ + dir_suffix(is_dir) =~= old(line)@);
    }
}

fn transfer_log_line(op: &str, src: &str, dst: &str, dst_is_dir: bool) -> (r: String)
    ensures
        r@ == transfer_line(op@, src@, dst@, dst_is_dir),
{
    let mut line = String::from_str("% ");
    line.append(op);
    line.append(": ");
    line.append(src);
    line.append(" -> ");
    line.append(dst);
    push_dir_suffix(&mut line, dst_is_dir);
    line
}

/// The line logged before copying `from` to `to`.
pub fn copy_log_line(from: &str, to: &str, to_is_dir: bool) -> (r: String)
    ensures
        r@ == transfer_line("copy"@, from@, to@, to_is_dir),
{
    transfer_log_line("copy", from, to, to_is_dir)
}

/// The line logged before linking `link` to `original`.
pub fn symlink_log_line(original: &str, link: &str, link_is_dir: bool) -> (r: String)
    ensures
        r@ == transfer_line("symlink"@, original@, link@, link_is_dir),
{
    transfer_log_line("symlink", original, link, link_is_dir)
}

/// The line logged before creating the directory `path` and its parents.
pub fn make_dir_log_line(path: &str, is_dir: bool) -> (r: String)
    ensures
        r@ == make_dir_line(path@, is_dir),
{
    let mut line = String::from_str("% make_dir: ");
    line.append(path);
    push_dir_suffix(&mut line, is_dir);
    line
}

/// The line logged before running `program` with `args`.
pub fn command_log_line(program: &str, args: &Vec<String>) -> (r: String)
    ensures
        r@ == command_line(program@, args@.map_values(|a: String| a@)),
{
    let ghost views = args@.map_values(|a: String| a@);
    let mut joined = String::new();
    let mut i: usize = 0;
    while i < args.len()
        invariant
            i <= args.len(),
            views == args@.map_values(|a: String| a@),
            joined@ == space_joined(views.take(i as int)),
        decreases args.len() - i,
    {
        if i > 0 {
            joined.append(" ");
        }
        joined.append(args[i].as_str());
        proof {
            let next = views.take(i + 1);
            assert(next.drop_last() =~= views.take(i as int));
            assert(next.last() == args@[i as int]@);
            if i == 0 {
                assert(space_joined(views.take(0)) =~= Seq::<char>::empty());
                assert(joined@ =~= space_joined(next));
            }
        }
        i = i + 1;
    }
    assert(views.take(args.len() as int) =~= views);
    let mut line = String::from_str("% ");
    line.append(program);
    line.append(" ");
    line.append(joined.as_str());
    line
}

} // verus!

use vstd::prelude::*;
use vstd::string::StrSliceExecFns;

verus! {

/// The script text before the image list.
pub const SCRIPT_HEAD: &'static str = "tell application \"System Events\"\n  set imagePathsList to ";

/// The script text after the image list: it walks every desktop (workspace),
/// groups them by display name in order of first appearance, and gives each
/// the image of its display's position in the list.
pub const SCRIPT_TAIL: &'static str = "\n  set allDesktops to every desktop\n\n  set displayNamesOrdered to {}\n  repeat with d in allDesktops\n    set dn to display name of d\n    if displayNamesOrdered does not contain dn then\n      set end of displayNamesOrdered to dn\n    end if\n  end repeat\n\n  repeat with d in allDesktops\n    set dn to display name of d\n    repeat with i from 1 to count of displayNamesOrdered\n      if item i of displayNamesOrdered is dn then\n        if i <= count of imagePathsList then\n          set imgPath to item i of imagePathsList\n          if imgPath is not \"\" then\n            tell d\n              set picture to POSIX file imgPath\n            end tell\n          end if\n        end if\n        exit repeat\n      end if\n    end repeat\n  end repeat\nend tell";

/// A character as written inside a quoted script string.
pub open spec fn escape_char(c: char) -> Seq<char> {
    if c == '\\' {
        seq!['\\', '\\']
    } else if c == '"' {
        seq!['\\', '"']
    } else {
        seq![c]
    }
}

/// A text as written inside a quoted script string: backslashes and double
/// quotes are preceded by a backslash.
pub open spec fn escaped(s: Seq<char>) -> Seq<char>
    decreases s.len(),
{
    if s.len() == 0 {
        Seq::empty()
    } else {
        escaped(s.drop_last()) + escape_char(s.last())
    }
}

pub open spec fn path_text(a: Option<String>) -> Seq<char> {
    match a {
        Some(p) => p@,
        None => Seq::empty(),
    }
}

/// One entry of the image list: the quoted path, or `""` for a screen without one.
pub open spec fn list_item(a: Option<String>) -> Seq<char> {
    seq!['"'] + escaped(path_text(a)) + seq!['"']
}

/// The first `n` entries of the image list, separated by `", "`.
pub open spec fn list_body(paths: Seq<Option<String>>, n: int) -> Seq<char>
    decreases n,
{
    if n <= 0 {
        Seq::empty()
    } else if n == 1 {
        list_item(paths[0])
    } else {
        list_body(paths, n - 1) + ", "@ + list_item(paths[n - 1])
    }
}

/// The length of the shortest prefix that holds every path: one past the
/// last screen with a wallpaper, or zero when there is none.
pub open spec fn used_prefix(paths: Seq<Option<String>>) -> nat
    decreases paths.len(),
{
    if paths.len() == 0 {
        0
    } else if paths.last() is Some {
        paths.len()
    } else {
        used_prefix(paths.drop_last())
    }
}

/// The image list of the script, `{"/a.jpg", "", "/c.jpg"}`, up to the last screen
/// that has a wallpaper.
pub open spec fn image_list(paths: Seq<Option<String>>) -> Seq<char> {
    "{"@ + list_body(paths, used_prefix(paths) as int) + "}"@
}

/// The script that gives every workspace of each display that display's
/// wallpaper; none when no screen has one.
pub open spec fn all_spaces_script_text(paths: Seq<Option<String>>) -> Option<Seq<char>> {
    if used_prefix(paths) == 0 {
        None
    } else {
        Some(SCRIPT_HEAD@ + image_list(paths) + SCRIPT_TAIL@)
    }
}

/// `s` as written inside a quoted script string.
pub fn escape_script_text(s: &str) -> (r: String)
    ensures
        r@ == escaped(s@),
{
    let n = s.unicode_len();
    let mut r = String::new();
    let mut i: usize = 0;
    while i < n
        invariant
            n == s@.len(),
            i <= n,
            r@ == escaped(s@.subrange(0, i as int)),
        decreases n - i,
    {
        proof {
            assert(s@.subrange(0, i + 1).drop_last() =~= s@.subrange(0, i as int));
            reveal_strlit("\\\\");
            reveal_strlit("\\\"");
        }
        let c = s.get_char(i);
        if c == '\\' {
            r.append("\\\\");
        } else if c == '"' {
            r.append("\\\"");
        } else {
            r.append(s.substring_char(i, i + 1));
        }
        proof {
            assert(escape_char(c) =~= escape_char(s@.subrange(0, i + 1).last()));
        }
        i = i + 1;
    }
    proof {
        assert(s@.subrange(0, n as int) =~= s@);
    }
    r
}

fn used_prefix_exec(paths: &Vec<Option<String>>) -> (r: usize)
    ensures
        r == used_prefix(paths@),
        r <= paths@.len(),
{
    let mut n: usize = paths.len();
    proof {
        assert(paths@.subrange(0, n as int) =~= paths@);
    }
    while n > 0
        invariant
            n <= paths@.len(),
            used_prefix(paths@) == used_prefix(paths@.subrange(0, n as int)),
        decreases n,
    {
        if paths[n - 1].is_some() {
            return n;
        }
        proof {
            assert(paths@.subrange(0, n as int).drop_last() =~= paths@.subrange(0, n - 1));
        }
        n = n - 1;
    }
    0
}

/// The image list of the script: each path quoted and escaped, `""` for a
/// screen without one, up to the last screen with a wallpaper.
pub fn script_image_list(paths: &Vec<Option<String>>) -> (r: String)
    ensures
        r@ == image_list(paths@),
{
    let k = used_prefix_exec(paths);
    let mut body = String::new();
    let mut i: usize = 0;
    while i < k
        invariant
            k == used_prefix(paths@),
            k <= paths@.len(),
            i <= k,
            body@ == list_body(paths@, i as int),
        decreases k - i,
    {
        proof {
            reveal_strlit(", ");
            reveal_strlit("\"");
        }
        if i > 0 {
            body.append(", ");
        }
        body.append("\"");
        let esc = match &paths[i] {
            Some(p) => escape_script_text(p.as_str()),
            None => String::new(),
        };
        body.append(esc.as_str());
        body.append("\"");
        proof {
            if i == 0 {
                assert(body@ =~= list_item(paths@[0]));
            } else {
                assert(body@ =~= list_body(paths@, i as int) + ", "@ + list_item(paths@[i as int]));
            }
        }
        i = i + 1;
    }
    let mut r = String::from_str("{");
    r.append(body.as_str());
    r.append("}");
    r
}

/// The script that brings the wallpapers to every workspace of each display;
/// none when no screen has a wallpaper.
pub fn all_spaces_script(paths: &Vec<Option<String>>) -> (r: Option<String>)
    ensures
        r matches Some(t) ==> all_spaces_script_text(paths@) == Some(t@),
        r is None ==> all_spaces_script_text(paths@) is None,
{
    if used_prefix_exec(paths) == 0 {
        return None;
    }
    let list = script_image_list(paths);
    let mut r = String::from_str(SCRIPT_HEAD);
    r.append(list.as_str());
    r.append(SCRIPT_TAIL);
    Some(r)
}

/// The screens the desktop is asked to change directly, in order: each
/// screen index below `count` (the screens the desktop reports) that has a
/// wallpaper, with its path.
pub open spec fn direct_targets(paths: Seq<Option<String>>, count: int, n: int) -> Seq<(usize, String)>
    decreases n,
{
    if n <= 0 {
        Seq::empty()
    } else {
        let prev = direct_targets(paths, count, n - 1);
        if n - 1 < count && paths[n - 1] is Some {
            prev.push(((n - 1) as usize, paths[n - 1]->0))
        } else {
            prev
        }
    }
}

/// The screens to change directly: every screen with a wallpaper whose index
/// is among the `count` screens the desktop reports, with its path, in order.
pub fn direct_wallpaper_targets(paths: &Vec<Option<String>>, count: usize) -> (r: Vec<(usize, String)>)
    ensures
        r@ == direct_targets(paths@, count as int, paths@.len() as int),
{
    let mut r: Vec<(usize, String)> = Vec::new();
    let mut i: usize = 0;
    while i < paths.len()
        invariant
            i <= paths@.len(),
            r@ == direct_targets(paths@, count as int, i as int),
        decreases paths@.len() - i,
    {
        if i < count {
            match &paths[i] {
                Some(p) => {
                    r.push((i, p.clone()));
                },
                None => {},
            }
        }
        i = i + 1;
    }
    r
}

} // verus!

use vstd::prelude::*;
use vstd::string::*;
use crate::path::{file_name, file_name_of, stem, stem_of};

verus! {

/// The title taken from a file stem: every `-` becomes a space.
pub open spec fn dashes_to_spaces(s: Seq<char>) -> Seq<char> {
    s.map_values(|c: char| if c == '-' { ' ' } else { c })
}

/// The title of the post at `path`: its stem with dashes made spaces, or
/// `Untitled` where the path has no file name.
pub open spec fn post_title(path: Seq<char>) -> Seq<char> {
    if file_name(path).len() == 0 {
        "Untitled"@
    } else {
        dashes_to_spaces(stem(file_name(path)))
    }
}

/// The header written into a new post.
pub open spec fn front_matter_text(title: Seq<char>, date: Seq<char>) -> Seq<char> {
    "+++\ntitle = \""@ + title + "\"\ndate = "@ + date + "\ndraft = false\ntags = []\n+++\n\n"@
}

/// Relies on chrono's `Local::now` and its `format`: the current local time as
/// an offset-aware timestamp. Nothing is assumed of its text.
#[verifier::external_body]
fn local_timestamp() -> (r: String) {
    chrono::Local::now().format("%Y-%m-%dT%H:%M:%S%:z").to_string()
}

/// Replaces every `-` in a file stem by a space.
pub fn title_from_stem(stem: &str) -> (r: String)
    ensures
        r@ == dashes_to_spaces(stem@),
{
    let mut r = String::new();
    let n = stem.unicode_len();
    let mut i: usize = 0;
    while i < n
        invariant
            n == stem@.len(),
            i <= n,
            r@ == dashes_to_spaces(stem@.take(i as int)),
        decreases n - i,
    {
        proof {
            reveal_strlit(" ");
        }
        if stem.get_char(i) == '-' {
            r.append(" ");
        } else {
            r.append(stem.substring_char(i, i + 1));
        }
        proof {
            assert(dashes_to_spaces(stem@.take(i + 1)) =~= dashes_to_spaces(stem@.take(i as int)) + seq![
                if stem@[i as int] == '-' { ' ' } else { stem@[i as int] },
            ]);
        }
        i = i + 1;
    }
    proof {
        assert(stem@.take(n as int) =~= stem@);
    }
    r
}

/// The title of the post at a path.
pub fn title_of_path(path: &str) -> (r: String)
    ensures
        r@ == post_title(path@),
{
    let name = file_name_of(path);
    if name.unicode_len() == 0 {
        String::from_str("Untitled")
    } else {
        title_from_stem(stem_of(name))
    }
}

/// The header for the post at `path`, stamped with `date`.
pub fn front_matter(path: &str, date: &str) -> (r: String)
    ensures
        r@ == front_matter_text(post_title(path@), date@),
{
    let title = title_of_path(path);
    let mut r = String::from_str("+++\ntitle = \"");
    r.append(title.as_str());
    r.append("\"\ndate = ");
    r.append(date);
    r.append("\ndraft = false\ntags = []\n+++\n\n");
    r
}

/// The header for the post at `path`, stamped with the current local time.
pub fn front_matter_now(path: &str) -> (r: String)
    ensures
        exists|date: Seq<char>| r@ == front_matter_text(post_title(path@), date),
{
    let date = local_timestamp();
    front_matter(path, date.as_str())
}

/// The header of a new post opens with the front-matter delimiter and holds
/// the title line, whose title has no dash left.
pub proof fn front_matter_opens_with_title(path: Seq<char>, date: Seq<char>)
    ensures
        front_matter_text(post_title(path), date).take(4) == "+++\n"@,
        front_matter_text(post_title(path), date).subrange(4, 14 + post_title(path).len() as int)
            == "title = \""@ + post_title(path) + "\""@,
        file_name(path).len() > 0 ==> post_title(path) == dashes_to_spaces(stem(file_name(path))),
        forall|k: int| 0 <= k < post_title(path).len() ==> post_title(path)[k] != '-',
{
    let t = post_title(path);
    let text = front_matter_text(t, date);
    reveal_strlit("+++\ntitle = \"");
    reveal_strlit("\"\ndate = ");
    reveal_strlit("Untitled");
    reveal_strlit("+++\n");
    reveal_strlit("title = \"");
    reveal_strlit("\"");
    assert(text.take(4) =~= "+++\n"@);
    assert(text.subrange(4, 14 + t.len() as int) =~= "title = \""@ + t + "\""@);
}

} // verus!

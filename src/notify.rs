use vstd::prelude::*;
use vstd::string::*;

verus! {

/// A desktop notification: a title and a message.
pub struct Notice {
    pub title: String,
    pub message: String,
}

/// What one character of notification text becomes inside a double-quoted
/// script string.
pub open spec fn escape_char(c: char) -> Seq<char> {
    if c == '\\' {
        seq!['\\', '\\']
    } else if c == '"' {
        seq!['\\', '"']
    } else {
        seq![c]
    }
}

/// The text with every backslash and double quote escaped by a backslash.
pub open spec fn escaped(s: Seq<char>) -> Seq<char>
    decreases s.len(),
{
    if s.len() == 0 {
        Seq::empty()
    } else {
        escaped(s.drop_last()) + escape_char(s.last())
    }
}

/// A string body that can stand between double quotes: each backslash opens a
/// two-character escape, and no bare double quote closes the string early.
pub open spec fn is_quotable(t: Seq<char>) -> bool
    decreases t.len(),
{
    if t.len() == 0 {
        true
    } else if t[0] == '\\' {
        t.len() >= 2 && is_quotable(t.skip(2))
    } else if t[0] == '"' {
        false
    } else {
        is_quotable(t.skip(1))
    }
}

/// The script that displays a notification with the given title and message.
pub open spec fn script_text(title: Seq<char>, message: Seq<char>) -> Seq<char> {
    "display notification \""@ + escaped(message) + "\" with title \""@ + escaped(title) + "\""@
}

proof fn lemma_quotable_concat(a: Seq<char>, b: Seq<char>)
    requires
        is_quotable(a),
        is_quotable(b),
    ensures
        is_quotable(a + b),
    decreases a.len(),
{
    if a.len() == 0 {
        assert(a + b =~= b);
    } else if a[0] == '\\' {
        lemma_quotable_concat(a.skip(2), b);
        assert((a + b).skip(2) =~= a.skip(2) + b);
    } else {
        lemma_quotable_concat(a.skip(1), b);
        assert((a + b).skip(1) =~= a.skip(1) + b);
    }
}

proof fn lemma_escaped_quotable(s: Seq<char>)
    ensures
        is_quotable(escaped(s)),
    decreases s.len(),
{
    if s.len() > 0 {
        lemma_escaped_quotable(s.drop_last());
        let e = escape_char(s.last());
        assert(is_quotable(e)) by {
            assert(e.skip(e.len() as int).len() == 0);
            assert(is_quotable(e.skip(e.len() as int)));
            if e.len() == 2 {
                assert(e.skip(2) =~= Seq::<char>::empty());
            } else {
                assert(e.skip(1) =~= Seq::<char>::empty());
            }
        }
        lemma_quotable_concat(escaped(s.drop_last()), e);
    }
}

/// Escaped notification text never ends its quoted string early: both the
/// message and the title stand quotable between the script's quotes.
pub proof fn notification_text_is_well_formed(title: Seq<char>, message: Seq<char>)
    ensures
        is_quotable(escaped(title)),
        is_quotable(escaped(message)),
        script_text(title, message) == "display notification \""@ + escaped(message)
            + "\" with title \""@ + escaped(title) + "\""@,
{
    lemma_escaped_quotable(title);
    lemma_escaped_quotable(message);
}

/// Escapes backslashes and double quotes for use inside a quoted script string.
pub fn escape_for_applescript(s: &str) -> (r: String)
    ensures
        r@ == escaped(s@),
{
    let mut r = String::new();
    let n = s.unicode_len();
    let mut i: usize = 0;
    while i < n
        invariant
            n == s@.len(),
            i <= n,
            r@ == escaped(s@.take(i as int)),
        decreases n - i,
    {
        let c = s.get_char(i);
        proof {
            reveal_strlit("\\\\");
            reveal_strlit("\\\"");
        }
        if c == '\\' {
            r.append("\\\\");
        } else if c == '"' {
            r.append("\\\"");
        } else {
            r.append(s.substring_char(i, i + 1));
        }
        proof {
            assert(s@.take(i + 1).drop_last() =~= s@.take(i as int));
            assert(s@.subrange(i as int, i + 1) =~= seq![c]);
            assert(escape_char(c) =~= if c == '\\' { "\\\\"@ } else if c == '"' { "\\\""@ } else { seq![c] });
        }
        i = i + 1;
    }
    proof {
        assert(s@.take(n as int) =~= s@);
    }
    r
}

/// The script text that shows a desktop notification, with both strings escaped.
pub fn notification_script(title: &str, message: &str) -> (r: String)
    ensures
        r@ == script_text(title@, message@),
{
    let safe_title = escape_for_applescript(title);
    let safe_message = escape_for_applescript(message);
    let mut r = String::from_str("display notification \"");
    r.append(safe_message.as_str());
    r.append("\" with title \"");
    r.append(safe_title.as_str());
    r.append("\"");
    r
}

} // verus!

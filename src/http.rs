use vstd::prelude::*;

verus! {

/// Whether `a` and `b` hold the same characters.
pub fn same_text(a: &str, b: &str) -> (r: bool)
    ensures
        r == (a@ == b@),
{
    let n = a.unicode_len();
    if n != b.unicode_len() {
        return false;
    }
    let mut i: usize = 0;
    while i < n
        invariant
            n == a@.len(),
            n == b@.len(),
            i <= n,
            a@.subrange(0, i as int) == b@.subrange(0, i as int),
        decreases n - i,
    {
        if a.get_char(i) != b.get_char(i) {
            assert(a@[i as int] != b@[i as int]);
            return false;
        }
        assert(a@.subrange(0, i + 1) =~= a@.subrange(0, i as int).push(a@[i as int]));
        assert(b@.subrange(0, i + 1) =~= b@.subrange(0, i as int).push(b@[i as int]));
        i = i + 1;
    }
    assert(a@ =~= a@.subrange(0, n as int));
    assert(b@ =~= b@.subrange(0, n as int));
    true
}

/// Picks the status line and the page file that answer `request_line`: the
/// home page for `GET / HTTP/1.1`, the not-found page for anything else.
pub fn route(request_line: &str) -> (r: (&'static str, &'static str))
    ensures
        request_line@ == "GET / HTTP/1.1"@ ==> r.0@ == "HTTP/1.1 200 OK"@ && r.1@ == "hello.html"@,
        request_line@ != "GET / HTTP/1.1"@ ==> r.0@ == "HTTP/1.1 404 NOT FOUND"@ && r.1@ == "404.html"@,
{
    let root = "GET / HTTP/1.1";
    if same_text(request_line, root) {
        ("HTTP/1.1 200 OK", "hello.html")
    } else {
        ("HTTP/1.1 404 NOT FOUND", "404.html")
    }
}

} // verus!

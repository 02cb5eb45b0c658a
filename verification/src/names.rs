use vstd::prelude::*;

verus! {

broadcast use vstd::string::axiom_spec_iter;

/// The character that separates the segments of a queue URL.
pub const SEPARATOR: char = '/';

/// Whether the queue name begins at `start` in `url`: right behind the last
/// separator, or at the front where the URL has none.
pub open spec fn is_name_start(url: Seq<char>, start: int) -> bool {
    &&& 0 <= start <= url.len()
    &&& start > 0 ==> url[start - 1] == SEPARATOR
    &&& forall|i: int| start <= i < url.len() ==> url[i] != SEPARATOR
}

/// Where the queue name begins in `url`.
pub open spec fn name_start(url: Seq<char>) -> int
    decreases url.len(),
{
    if url.len() == 0 {
        0
    } else if url.last() == SEPARATOR {
        url.len() as int
    } else {
        name_start(url.drop_last())
    }
}

/// The name of the queue that `url` points to: its last path segment.
pub open spec fn queue_name_of(url: Seq<char>) -> Seq<char> {
    url.subrange(name_start(url), url.len() as int)
}

/// `name_start` is the one position that `is_name_start` accepts.
pub proof fn lemma_name_start_unique(url: Seq<char>, start: int)
    ensures
        is_name_start(url, name_start(url)),
        is_name_start(url, start) ==> start == name_start(url),
    decreases url.len(),
{
    if url.len() > 0 && url.last() != SEPARATOR {
        let shorter = url.drop_last();
        lemma_name_start_unique(shorter, start);
        let at = name_start(shorter);
        assert(forall|i: int| at <= i < shorter.len() ==> shorter[i] == url[i]);
        if is_name_start(url, start) {
            assert(start < url.len()) by {
                if start == url.len() {
                    assert(url[start - 1] == url.last());
                }
            }
            assert(forall|i: int| start <= i < shorter.len() ==> shorter[i] == url[i]);
            assert(is_name_start(shorter, start));
        }
    } else if url.len() > 0 {
        if is_name_start(url, start) && start < url.len() {
            assert(url[url.len() - 1] != SEPARATOR);
        }
    }
}

/// A URL that holds no separator is its own queue name.
pub proof fn lemma_plain_url_is_its_name(url: Seq<char>)
    requires
        !url.contains(SEPARATOR),
    ensures
        queue_name_of(url) == url,
{
    assert(is_name_start(url, 0));
    lemma_name_start_unique(url, 0);
    assert(url.subrange(0, url.len() as int) == url);
}

/// The queue name is what follows the last separator: where `name` holds no
/// separator, it is the name of every URL that ends in a separator and `name`.
pub proof fn lemma_name_follows_last_separator(front: Seq<char>, name: Seq<char>)
    requires
        !name.contains(SEPARATOR),
    ensures
        queue_name_of(front.push(SEPARATOR) + name) == name,
{
    let url = front.push(SEPARATOR) + name;
    let start = front.len() as int + 1;
    assert forall|i: int| start <= i < url.len() implies url[i] != SEPARATOR by {
        assert(url[i] == name[i - start]);
    }
    assert(url[start - 1] == SEPARATOR);
    assert(is_name_start(url, start));
    lemma_name_start_unique(url, start);
    assert(url.subrange(start, url.len() as int) == name);
}

/// Derives a queue's name from its URL: what follows the last `/`, or the
/// whole URL where it holds no `/`.
pub fn queue_name(url: &str) -> (name: String)
    ensures
        name@ == queue_name_of(url@),
{
    let len: usize = url.unicode_len();
    let chars = url.chars();
    let mut start: usize = 0;
    let mut seen: usize = 0;
    for c in it: chars
        invariant
            it.seq() == url@,
            len == url@.len(),
            seen == it.index(),
            is_name_start(url@.take(seen as int), start as int),
    {
        seen = seen + 1;
        if c == SEPARATOR {
            start = seen;
        }
    }
    proof {
        assert(url@.take(seen as int) == url@);
        lemma_name_start_unique(url@, start as int);
    }
    url.substring_char(start, len).to_owned()
}

} // verus!

use vstd::prelude::*;

verus! {

/// Settings of the bot and the cursor of its update feed: the id of the first
/// update that it has not consumed yet.
#[derive(Debug, Clone)]
pub struct Bot {
    pub token: String,
    pub offset: i64,
    pub polling_timeout: i64,
    pub base_url: String,
}

/// The cursor after an update with id `id` was seen at cursor `cursor`: one
/// past `id`, or `cursor` where that is further. It never moves back. One past
/// the largest `i64` is not an `i64`, so an update with that id takes the
/// cursor to the largest `i64`.
pub open spec fn next_cursor(cursor: int, id: int) -> int {
    let seen = if id < i64::MAX {
        id + 1
    } else {
        i64::MAX as int
    };
    if seen > cursor {
        seen
    } else {
        cursor
    }
}

/// The cursor after the updates with ids `ids` were seen, in that order,
/// starting from cursor `cursor`.
pub open spec fn cursor_after(cursor: int, ids: Seq<i64>) -> int
    decreases ids.len(),
{
    if ids.len() == 0 {
        cursor
    } else {
        next_cursor(cursor_after(cursor, ids.drop_last()), ids.last() as int)
    }
}

/// Address of the service method `method` for the bot with token `token`.
pub open spec fn method_url(base_url: Seq<char>, token: Seq<char>, method: Seq<char>) -> Seq<char> {
    base_url + "/bot"@ + token + "/"@ + method
}

impl Bot {
    pub fn new(token: String, offset: i64, polling_timeout: i64, base_url: String) -> (r: Bot)
        ensures
            r.token == token,
            r.offset == offset,
            r.polling_timeout == polling_timeout,
            r.base_url == base_url,
    {
        Bot { token, offset, polling_timeout, base_url }
    }

    /// Moves the cursor past the update with id `offset`, unless it is past
    /// it already.
    pub fn update_offset(&mut self, offset: i64)
        ensures
            final(self).offset == next_cursor(old(self).offset as int, offset as int),
            final(self).token == old(self).token,
            final(self).polling_timeout == old(self).polling_timeout,
            final(self).base_url == old(self).base_url,
    {
        if offset >= self.offset {
            self.offset = if offset < i64::MAX {
                offset + 1
            } else {
                i64::MAX
            };
        }
    }

    /// Address of the service method `method`.
    pub fn url(&self, method: &str) -> (r: String)
        ensures
            r@ == method_url(self.base_url@, self.token@, method@),
    {
        let mut r = self.base_url.clone();
        r.append("/bot");
        r.append(self.token.as_str());
        r.append("/");
        r.append(method);
        r
    }
}

/// The cursor never moves back, and it ends up past every update seen, in
/// whatever order and with whatever repetitions the ids came.
pub proof fn lemma_cursor_never_decreases(cursor: int, ids: Seq<i64>)
    ensures
        cursor_after(cursor, ids) >= cursor,
        forall|i: int|
            0 <= i < ids.len() && ids[i] < i64::MAX ==> cursor_after(cursor, ids) > #[trigger] ids[i],
    decreases ids.len(),
{
    if ids.len() > 0 {
        let rest = ids.drop_last();
        lemma_cursor_never_decreases(cursor, rest);
        assert forall|i: int|
            0 <= i < ids.len() && ids[i] < i64::MAX implies cursor_after(cursor, ids) > #[trigger] ids[i] by {
            if i < ids.len() - 1 {
                assert(rest[i] == ids[i]);
            }
        }
    }
}

/// After a batch of updates with strictly increasing ids, the cursor is one
/// past the last id, where it did not start further on.
pub proof fn lemma_cursor_after_increasing_ids(cursor: int, ids: Seq<i64>)
    requires
        ids.len() > 0,
        forall|i: int, j: int| 0 <= i < j < ids.len() ==> ids[i] < ids[j],
        cursor <= ids.last() + 1,
        ids.last() < i64::MAX,
    ensures
        cursor_after(cursor, ids) == ids.last() + 1,
    decreases ids.len(),
{
    let rest = ids.drop_last();
    if rest.len() > 0 {
        assert(rest.last() < ids.last());
        assert forall|i: int, j: int| 0 <= i < j < rest.len() implies rest[i] < rest[j] by {
            assert(rest[i] == ids[i] && rest[j] == ids[j]);
        }
        if cursor <= rest.last() + 1 {
            lemma_cursor_after_increasing_ids(cursor, rest);
        } else {
            assert forall|i: int| 0 <= i < rest.len() implies rest[i] < cursor by {
                assert(rest[i] == ids[i]);
                if i < rest.len() - 1 {
                    assert(ids[i] < ids[rest.len() - 1]);
                }
            }
            lemma_cursor_bounded(cursor, rest);
        }
    } else {
        assert(cursor_after(cursor, rest) == cursor);
    }
    assert(cursor_after(cursor, ids) == next_cursor(cursor_after(cursor, rest), ids.last() as int));
}

/// Updates with ids below the cursor leave it where it is.
proof fn lemma_cursor_bounded(cursor: int, ids: Seq<i64>)
    requires
        forall|i: int| 0 <= i < ids.len() ==> ids[i] < cursor,
    ensures
        cursor_after(cursor, ids) == cursor,
    decreases ids.len(),
{
    if ids.len() > 0 {
        let rest = ids.drop_last();
        assert forall|i: int| 0 <= i < rest.len() implies rest[i] < cursor by {
            assert(rest[i] == ids[i]);
        }
        lemma_cursor_bounded(cursor, rest);
    }
}

} // verus!

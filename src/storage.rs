use vstd::prelude::*;
use vstd::string::StringExecFns;
use crate::chars::chars_of;

verus! {

/// How many messages a history page holds when the caller names no limit.
pub const DEFAULT_PAGE_LIMIT: usize = 100;

/// One record of a session's append-only message log.
#[derive(Debug, Clone, PartialEq)]
pub struct StoredMessage {
    pub id: String,
    pub role: String,
    pub content: String,
    pub message_type: String,
    pub created_at: String,
    pub pane_type: Option<String>,
}

/// The message log kept under a base directory, one file per session.
#[derive(Debug, Clone, PartialEq)]
pub struct FileStorage {
    pub base_path: String,
}

impl FileStorage {
    /// A log rooted at `base_path`.
    pub fn new(base_path: &str) -> (r: FileStorage)
        ensures
            r.base_path@ == base_path@,
    {
        FileStorage { base_path: String::from_str(base_path) }
    }
}

/// The first position at or after `k` of a message whose id is `id`.
pub open spec fn first_with_id(all: Seq<StoredMessage>, id: Seq<char>, k: int) -> Option<int>
    decreases all.len() - k,
{
    if k < 0 || k >= all.len() {
        None
    } else if all[k].id@ == id {
        Some(k)
    } else {
        first_with_id(all, id, k + 1)
    }
}

/// The messages a page is cut from: all of them, or, for `before`, those
/// older than the first message with that id (none when no message has it).
pub open spec fn page_source(all: Seq<StoredMessage>, before: Option<Seq<char>>) -> Seq<StoredMessage> {
    match before {
        None => all,
        Some(id) => match first_with_id(all, id, 0) {
            Some(idx) => all.subrange(0, idx),
            None => Seq::empty(),
        },
    }
}

/// A history page: the `limit` most recent messages of `page_source`, in
/// log order, and whether older ones were left out.
pub open spec fn page_of(all: Seq<StoredMessage>, limit: nat, before: Option<Seq<char>>) -> (Seq<StoredMessage>, bool) {
    let src = page_source(all, before);
    if src.len() > limit {
        (src.subrange(src.len() - limit, src.len() as int), true)
    } else {
        (src, false)
    }
}

/// The view of an optional id.
pub open spec fn opt_view(s: Option<&str>) -> Option<Seq<char>> {
    match s {
        Some(t) => Some(t@),
        None => None,
    }
}

/// Cuts a history page out of the whole log `all` of a session: at most
/// `limit` messages (100 when unnamed), the most recent ones, taken from
/// those before the message `before_id` when one is named. Returns the page and
/// whether older messages remain.
pub fn paginate(all: Vec<StoredMessage>, limit: Option<usize>, before_id: Option<&str>) -> (r: (
    Vec<StoredMessage>,
    bool,
))
    ensures
        ({
            let lim = match limit {
                Some(l) => l as nat,
                None => DEFAULT_PAGE_LIMIT as nat,
            };
            r.0@ == page_of(all@, lim, opt_view(before_id)).0 && r.1 == page_of(all@, lim, opt_view(before_id)).1
        }),
{
    let mut msgs = all;
    let ghost whole = msgs@;
    match before_id {
        Some(b) => {
            let wanted = String::from_str(b);
            let mut i: usize = 0;
            let mut found: Option<usize> = None;
            while i < msgs.len()
                invariant
                    msgs@ == whole,
                    0 <= i <= msgs@.len(),
                    wanted@ == b@,
                    found is None ==> first_with_id(whole, b@, 0) == first_with_id(whole, b@, i as int),
                    found matches Some(f) ==> first_with_id(whole, b@, 0) == Some(f as int) && f < msgs@.len(),
                decreases msgs@.len() - i,
            {
                if found.is_none() && msgs[i].id == wanted {
                    found = Some(i);
                }
                i = i + 1;
            }
            match found {
                Some(idx) => {
                    msgs.truncate(idx);
                },
                None => {
                    msgs.clear();
                },
            }
        },
        None => {},
    }
    let lim = match limit {
        Some(l) => l,
        None => DEFAULT_PAGE_LIMIT,
    };
    let n = msgs.len();
    if n > lim {
        let tail = msgs.split_off(n - lim);
        (tail, true)
    } else {
        (msgs, false)
    }
}


/// The pane class of a logged message: the unattended loop, the interactive
/// loop, or anything else.
pub open spec fn pane_class(m: StoredMessage) -> int {
    match m.pane_type {
        Some(p) => if p@ == "deadloop"@ {
            0
        } else if p@ == "interactive"@ {
            1
        } else {
            2
        },
        None => 2,
    }
}

/// How many of the first `k` messages belong to pane class `c`.
pub open spec fn count_before(all: Seq<StoredMessage>, k: int, c: int) -> nat
    decreases k,
{
    if k <= 0 {
        0
    } else {
        count_before(all, k - 1, c) + if pane_class(all[k - 1]) == c { 1nat } else { 0nat }
    }
}

/// Whether message `i` is among the `limit` most recent of its pane class:
/// fewer than `limit` later messages share its class.
pub open spec fn is_recent(all: Seq<StoredMessage>, i: int, limit: nat) -> bool {
    let c = pane_class(all[i]);
    count_before(all, all.len() as int, c) - count_before(all, i + 1, c) < limit
}

/// The recent messages among the first `k`, in log order.
pub open spec fn recent_before(all: Seq<StoredMessage>, k: int, limit: nat) -> Seq<StoredMessage>
    decreases k,
{
    if k <= 0 {
        Seq::empty()
    } else if is_recent(all, k - 1, limit) {
        recent_before(all, k - 1, limit).push(all[k - 1])
    } else {
        recent_before(all, k - 1, limit)
    }
}

/// Whether some pane class has more than `limit` messages.
pub open spec fn some_pane_over(all: Seq<StoredMessage>, limit: nat) -> bool {
    count_before(all, all.len() as int, 0) > limit || count_before(all, all.len() as int, 1) > limit
        || count_before(all, all.len() as int, 2) > limit
}

proof fn lemma_count_bounded(all: Seq<StoredMessage>, k: int, c: int)
    requires
        0 <= k,
    ensures
        count_before(all, k, c) <= k,
    decreases k,
{
    if k > 0 {
        lemma_count_bounded(all, k - 1, c);
    }
}

fn pane_class_of(m: &StoredMessage) -> (r: usize)
    ensures
        r as int == pane_class(*m),
{
    match &m.pane_type {
        Some(p) => {
            if *p == String::from_str("deadloop") {
                0
            } else if *p == String::from_str("interactive") {
                1
            } else {
                2
            }
        },
        None => 2,
    }
}

/// Cuts the history replayed to a consumer that watches both panes: the
/// `limit_per_pane` most recent messages of the unattended loop, of the
/// interactive loop and of everything else, sorted by creation time (log
/// order among equal times). Returns them and whether some pane had more.
pub fn recent_per_pane(all: Vec<StoredMessage>, limit_per_pane: usize) -> (r: (Vec<StoredMessage>, bool))
    ensures
        r.0@ == sorted_by_time(recent_before(all@, all@.len() as int, limit_per_pane as nat)),
        in_time_order(r.0@),
        r.1 == some_pane_over(all@, limit_per_pane as nat),
{
    let ghost orig = all@;
    let n = all.len();
    let mut totals: [usize; 3] = [0, 0, 0];
    let mut i: usize = 0;
    while i < n
        invariant
            n == orig.len(),
            all@ == orig,
            0 <= i <= n,
            forall|c: int| 0 <= c < 3 ==> #[trigger] totals@[c] as int == count_before(orig, i as int, c),
        decreases n - i,
    {
        let c = pane_class_of(&all[i]);
        proof {
            lemma_count_bounded(orig, i as int, c as int);
        }
        totals.set(c, totals[c] + 1);
        i = i + 1;
    }
    let has_more = totals[0] > limit_per_pane || totals[1] > limit_per_pane || totals[2] > limit_per_pane;
    let mut rest = all;
    let mut seen: [usize; 3] = [0, 0, 0];
    let mut kept: Vec<StoredMessage> = Vec::new();
    let mut j: usize = 0;
    while j < n
        invariant
            n == orig.len(),
            0 <= j <= n,
            rest@ == orig.subrange(j as int, n as int),
            forall|c: int| 0 <= c < 3 ==> #[trigger] totals@[c] as int == count_before(orig, n as int, c),
            forall|c: int| 0 <= c < 3 ==> #[trigger] seen@[c] as int == count_before(orig, j as int, c),
            kept@ == recent_before(orig, j as int, limit_per_pane as nat),
        decreases n - j,
    {
        let m = rest.remove(0);
        assert(m == orig[j as int]);
        assert(rest@ =~= orig.subrange(j + 1, n as int));
        let c = pane_class_of(&m);
        proof {
            lemma_count_bounded(orig, j as int, c as int);
            assert(count_before(orig, j + 1, c as int) == count_before(orig, j as int, c as int) + 1);
            lemma_count_le(orig, j + 1, n as int, c as int);
        }
        seen.set(c, seen[c] + 1);
        if totals[c] - seen[c] < limit_per_pane {
            kept.push(m);
        }
        j = j + 1;
    }
    proof {
        lemma_sorted_by_time_in_order(kept@);
    }
    (sort_by_created_at(kept), has_more)
}

proof fn lemma_count_le(all: Seq<StoredMessage>, k1: int, k2: int, c: int)
    requires
        0 <= k1 <= k2,
    ensures
        count_before(all, k1, c) <= count_before(all, k2, c),
    decreases k2 - k1,
{
    if k1 < k2 {
        lemma_count_le(all, k1, k2 - 1, c);
    }
}


/// Whether text `a` comes no later than `b` in string order: compared
/// character by character, a proper prefix first.
pub open spec fn text_le(a: Seq<char>, b: Seq<char>) -> bool
    decreases a.len(),
{
    if a.len() == 0 {
        true
    } else if b.len() == 0 {
        false
    } else if a[0] != b[0] {
        a[0] < b[0]
    } else {
        text_le(a.drop_first(), b.drop_first())
    }
}

/// Where `x` goes among the sorted messages `s`, scanning from `j`: before
/// the first message created later than it.
pub open spec fn insert_position(s: Seq<StoredMessage>, x: StoredMessage, j: int) -> int
    decreases s.len() - j,
{
    if j < 0 || j >= s.len() {
        s.len() as int
    } else if !text_le(s[j].created_at@, x.created_at@) {
        j
    } else {
        insert_position(s, x, j + 1)
    }
}

/// `s` sorted by creation time, stably: each message, taken in order, goes
/// after every message already placed that was created no later than it.
pub open spec fn sorted_by_time(s: Seq<StoredMessage>) -> Seq<StoredMessage>
    decreases s.len(),
{
    if s.len() == 0 {
        Seq::empty()
    } else {
        let sorted = sorted_by_time(s.drop_last());
        sorted.insert(insert_position(sorted, s.last(), 0), s.last())
    }
}

/// Whether `s` is in creation-time order.
pub open spec fn in_time_order(s: Seq<StoredMessage>) -> bool {
    forall|i: int, j: int| 0 <= i < j < s.len() ==> text_le(#[trigger] s[i].created_at@, #[trigger] s[j].created_at@)
}

fn text_le_exec(a: &Vec<char>, b: &Vec<char>) -> (r: bool)
    ensures
        r == text_le(a@, b@),
{
    let mut i: usize = 0;
    assert(a@.skip(0) == a@ && b@.skip(0) == b@);
    while i < a.len() && i < b.len() && a[i] == b[i]
        invariant
            0 <= i <= a@.len(),
            i <= b@.len(),
            text_le(a@, b@) == text_le(a@.skip(i as int), b@.skip(i as int)),
        decreases a@.len() - i,
    {
        assert(a@.skip(i as int).drop_first() == a@.skip(i + 1));
        assert(b@.skip(i as int).drop_first() == b@.skip(i + 1));
        i = i + 1;
    }
    if i == a.len() {
        true
    } else if i == b.len() {
        false
    } else {
        a[i] < b[i]
    }
}

/// Sorts messages by creation time, keeping log order among equal times.
fn sort_by_created_at(v: Vec<StoredMessage>) -> (r: Vec<StoredMessage>)
    ensures
        r@ == sorted_by_time(v@),
{
    let ghost orig = v@;
    let n = v.len();
    let mut rest = v;
    let mut sorted: Vec<StoredMessage> = Vec::new();
    let mut keys: Vec<Vec<char>> = Vec::new();
    let mut k: usize = 0;
    while k < n
        invariant
            n == orig.len(),
            0 <= k <= n,
            rest@ == orig.subrange(k as int, n as int),
            sorted@ == sorted_by_time(orig.subrange(0, k as int)),
            keys@.len() == sorted@.len(),
            forall|j: int| 0 <= j < keys@.len() ==> #[trigger] keys@[j]@ == sorted@[j].created_at@,
        decreases n - k,
    {
        let m = rest.remove(0);
        assert(m == orig[k as int]);
        assert(rest@ =~= orig.subrange(k + 1, n as int));
        let key = chars_of(m.created_at.as_str());
        let mut pos: usize = 0;
        while pos < sorted.len() && text_le_exec(&keys[pos], &key)
            invariant
                0 <= pos <= sorted@.len(),
                keys@.len() == sorted@.len(),
                forall|j: int| 0 <= j < keys@.len() ==> #[trigger] keys@[j]@ == sorted@[j].created_at@,
                key@ == m.created_at@,
                insert_position(sorted@, m, 0) == insert_position(sorted@, m, pos as int),
            decreases sorted@.len() - pos,
        {
            pos = pos + 1;
        }
        proof {
            let pre = orig.subrange(0, k + 1);
            assert(pre.drop_last() == orig.subrange(0, k as int));
            assert(pre.last() == m);
        }
        sorted.insert(pos, m);
        keys.insert(pos, key);
        proof {
            assert forall|j: int| 0 <= j < keys@.len() implies #[trigger] keys@[j]@ == sorted@[j].created_at@ by {
                if j < pos {
                } else if j > pos {
                }
            }
        }
        k = k + 1;
    }
    assert(orig.subrange(0, n as int) == orig);
    sorted
}


proof fn lemma_text_le_total(a: Seq<char>, b: Seq<char>)
    ensures
        text_le(a, b) || text_le(b, a),
    decreases a.len(),
{
    if a.len() > 0 && b.len() > 0 && a[0] == b[0] {
        lemma_text_le_total(a.drop_first(), b.drop_first());
    }
}

proof fn lemma_text_le_trans(a: Seq<char>, b: Seq<char>, c: Seq<char>)
    requires
        text_le(a, b),
        text_le(b, c),
    ensures
        text_le(a, c),
    decreases a.len(),
{
    if a.len() > 0 && b.len() > 0 && c.len() > 0 && a[0] == b[0] && b[0] == c[0] {
        lemma_text_le_trans(a.drop_first(), b.drop_first(), c.drop_first());
    }
}

proof fn lemma_insert_position(s: Seq<StoredMessage>, x: StoredMessage, j: int)
    requires
        0 <= j <= s.len(),
    ensures
        j <= insert_position(s, x, j) <= s.len(),
        forall|i: int| j <= i < insert_position(s, x, j) ==> text_le(#[trigger] s[i].created_at@, x.created_at@),
        insert_position(s, x, j) < s.len() ==> !text_le(s[insert_position(s, x, j)].created_at@, x.created_at@),
    decreases s.len() - j,
{
    if j < s.len() && text_le(s[j].created_at@, x.created_at@) {
        lemma_insert_position(s, x, j + 1);
    }
}

/// Sorting by creation time yields messages in creation-time order.
pub proof fn lemma_sorted_by_time_in_order(s: Seq<StoredMessage>)
    ensures
        in_time_order(sorted_by_time(s)),
        sorted_by_time(s).len() == s.len(),
    decreases s.len(),
{
    if s.len() > 0 {
        let prev = sorted_by_time(s.drop_last());
        lemma_sorted_by_time_in_order(s.drop_last());
        let x = s.last();
        let p = insert_position(prev, x, 0);
        lemma_insert_position(prev, x, 0);
        let r = prev.insert(p, x);
        assert forall|i: int, j: int| 0 <= i < j < r.len() implies text_le(
            #[trigger] r[i].created_at@,
            #[trigger] r[j].created_at@,
        ) by {
            if i < p && j < p {
                assert(r[i] == prev[i] && r[j] == prev[j]);
            } else if i < p && j == p {
                assert(r[i] == prev[i]);
            } else if i < p {
                assert(r[i] == prev[i] && r[j] == prev[j - 1]);
                assert(text_le(prev[i].created_at@, x.created_at@));
                lemma_text_le_total(prev[p].created_at@, x.created_at@);
                if p < j - 1 {
                    assert(text_le(prev[p].created_at@, prev[j - 1].created_at@));
                    lemma_text_le_trans(x.created_at@, prev[p].created_at@, prev[j - 1].created_at@);
                }
                lemma_text_le_trans(prev[i].created_at@, x.created_at@, prev[j - 1].created_at@);
            } else if i == p {
                assert(r[j] == prev[j - 1]);
                lemma_text_le_total(prev[p].created_at@, x.created_at@);
                if p < j - 1 {
                    assert(text_le(prev[p].created_at@, prev[j - 1].created_at@));
                    lemma_text_le_trans(x.created_at@, prev[p].created_at@, prev[j - 1].created_at@);
                }
            } else {
                assert(r[i] == prev[i - 1] && r[j] == prev[j - 1]);
            }
        }
    }
}

} // verus!

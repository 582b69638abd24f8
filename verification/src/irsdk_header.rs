//! The layout of the iRacing shared memory.
//!
//! ```text
//! 0x0000  header              112 bytes
//! ....    variable headers    144 bytes each
//! ....    SessionInfo YAML    ends with a zero byte
//! ....    telemetry rows      a ring of up to four
//! ```

use vstd::prelude::*;
use vstd::string::*;

use crate::irsdk::buffer_range;

verus! {

/// Bytes of the header.
pub const HEADER_LEN: usize = 112;

/// Bytes of a variable header.
pub const VAR_HEADER_LEN: usize = 144;

/// Bytes of the name in a variable header.
pub const NAME_LEN: usize = 32;

/// Most telemetry rows that the ring has.
pub const MAX_ROWS: i32 = 4;

/// The little-endian number in four bytes.
pub open spec fn word(bytes: Seq<u8>, at: int) -> i32 {
    let n = bytes[at] + 256 * bytes[at + 1] + 65536 * bytes[at + 2] + 16777216 * bytes[at + 3];
    if n < 2147483648 {
        n as i32
    } else {
        (n - 4294967296) as i32
    }
}

/// The little-endian number in four bytes, where they are there.
pub fn read_i32(bytes: &[u8], at: usize) -> (r: Option<i32>)
    ensures
        r == (if at + 4 <= bytes@.len() {
            Some(word(bytes@, at as int))
        } else {
            None
        }),
{
    if at >= bytes.len() || bytes.len() - at < 4 {
        return None;
    }
    let n: i64 = bytes[at] as i64 + 256 * bytes[at + 1] as i64 + 65536 * bytes[at + 2] as i64
        + 16777216 * bytes[at + 3] as i64;
    if n < 2147483648 {
        Some(n as i32)
    } else {
        Some((n - 4294967296) as i32)
    }
}

/// Where a telemetry row lies and when it was written.
#[derive(Debug, Clone, Copy, PartialEq, Eq, Structural)]
pub struct VarBuf {
    pub tick_count: i32,
    pub buf_offset: i32,
}

/// What the header says.
#[derive(Debug)]
pub struct Header {
    pub status: i32,
    /// Counts changes of the session description.
    pub session_info_update: i32,
    pub session_info_len: i32,
    pub session_info_offset: i32,
    pub num_vars: i32,
    pub var_header_offset: i32,
    pub buf_len: i32,
    /// The rows that are in use, at least one.
    pub var_bufs: Vec<VarBuf>,
}

/// The row descriptor `i`.
pub open spec fn row(bytes: Seq<u8>, i: int) -> VarBuf {
    VarBuf { tick_count: word(bytes, 48 + 16 * i), buf_offset: word(bytes, 52 + 16 * i) }
}

/// Whether bytes start with a header that makes sense: it is whole, counts and
/// lengths are not negative, and the ring has one to four rows.
pub open spec fn has_header(bytes: Seq<u8>) -> bool {
    &&& bytes.len() >= HEADER_LEN
    &&& word(bytes, 16) >= 0
    &&& word(bytes, 20) >= 0
    &&& word(bytes, 24) >= 0
    &&& word(bytes, 28) >= 0
    &&& 1 <= word(bytes, 32) <= MAX_ROWS
    &&& word(bytes, 36) >= 0
}

/// Whether a header is the one that the bytes start with.
pub open spec fn is_header(h: Header, bytes: Seq<u8>) -> bool {
    &&& h.status == word(bytes, 4)
    &&& h.session_info_update == word(bytes, 12)
    &&& h.session_info_len == word(bytes, 16)
    &&& h.session_info_offset == word(bytes, 20)
    &&& h.num_vars == word(bytes, 24)
    &&& h.var_header_offset == word(bytes, 28)
    &&& h.buf_len == word(bytes, 36)
    &&& h.var_bufs@ == Seq::new(word(bytes, 32) as nat, |i: int| row(bytes, i))
}

/// The four bytes at `at`, which the caller knows to be there.
fn word_at(bytes: &[u8], at: usize) -> (r: i32)
    requires
        at + 4 <= bytes@.len(),
    ensures
        r == word(bytes@, at as int),
{
    match read_i32(bytes, at) {
        Some(n) => n,
        None => 0,
    }
}

/// Reads the header.
pub fn parse_header(bytes: &[u8]) -> (r: Option<Header>)
    ensures
        r is Some <==> has_header(bytes@),
        r matches Some(h) ==> is_header(h, bytes@),
{
    if bytes.len() < HEADER_LEN {
        return None;
    }
    let num_buf: i32 = word_at(bytes, 32);
    let session_info_len: i32 = word_at(bytes, 16);
    let session_info_offset: i32 = word_at(bytes, 20);
    let num_vars: i32 = word_at(bytes, 24);
    let var_header_offset: i32 = word_at(bytes, 28);
    let buf_len: i32 = word_at(bytes, 36);
    if num_buf < 1 || num_buf > MAX_ROWS || session_info_len < 0 || session_info_offset < 0
        || num_vars < 0 || var_header_offset < 0 || buf_len < 0 {
        return None;
    }
    let rows: usize = num_buf as usize;
    let mut var_bufs: Vec<VarBuf> = Vec::new();
    let mut i: usize = 0;
    while i < rows
        invariant
            i <= rows <= 4,
            bytes@.len() >= HEADER_LEN,
            var_bufs@ == Seq::new(i as nat, |i: int| row(bytes@, i)),
        decreases rows - i,
    {
        var_bufs.push(
            VarBuf {
                tick_count: word_at(bytes, 48 + 16 * i),
                buf_offset: word_at(bytes, 52 + 16 * i),
            },
        );
        assert(var_bufs@ =~= Seq::new((i + 1) as nat, |i: int| row(bytes@, i)));
        i = i + 1;
    }
    Some(
        Header {
            status: word_at(bytes, 4),
            session_info_update: word_at(bytes, 12),
            session_info_len,
            session_info_offset,
            num_vars,
            var_header_offset,
            buf_len,
            var_bufs,
        },
    )
}

/// Whether a status says that the simulator is connected: its lowest bit is set.
pub fn sim_connected(status: i32) -> (r: bool)
    ensures
        r == (status as int % 2 == 1),
{
    let low: i32 = status & 1;
    assert(low == 1 <==> (status - low) % 2 == 0 && low == 1) by (bit_vector)
        requires
            low == status & 1,
    ;
    assert(low == 0 || low == 1) by (bit_vector)
        requires
            low == status & 1,
    ;
    assert(low == 0 ==> (status - low) % 2 == 0) by (bit_vector)
        requires
            low == status & 1,
    ;
    low == 1
}

/// The row that was written last, the first of them where several share a tick.
pub open spec fn newest(rows: Seq<VarBuf>) -> VarBuf
    decreases rows.len(),
{
    if rows.len() <= 1 {
        rows[0]
    } else {
        let best = newest(rows.drop_last());
        if rows.last().tick_count > best.tick_count {
            rows.last()
        } else {
            best
        }
    }
}

/// The row that was written last.
pub fn latest_buf(rows: &Vec<VarBuf>) -> (r: VarBuf)
    requires
        rows@.len() > 0,
    ensures
        r == newest(rows@),
{
    let mut best: VarBuf = rows[0];
    let mut i: usize = 1;
    assert(rows@.take(1)[0] == rows@[0]);
    while i < rows.len()
        invariant
            1 <= i <= rows@.len(),
            best == newest(rows@.take(i as int)),
        decreases rows.len() - i,
    {
        assert(rows@.take(i + 1).drop_last() =~= rows@.take(i as int));
        if rows[i].tick_count > best.tick_count {
            best = rows[i];
        }
        i = i + 1;
    }
    assert(rows@.take(i as int) =~= rows@);
    best
}

/// No row is newer than the newest, which is one of them.
pub proof fn newest_is_newest(rows: Seq<VarBuf>, i: int)
    requires
        0 <= i < rows.len(),
    ensures
        rows[i].tick_count <= newest(rows).tick_count,
        rows.contains(newest(rows)),
    decreases rows.len(),
{
    if rows.len() > 1 {
        let front = rows.drop_last();
        let k = if i < front.len() {
            i
        } else {
            0
        };
        newest_is_newest(front, k);
        let at = choose|at: int| 0 <= at < front.len() && front[at] == newest(front);
        assert(rows[at] == newest(front));
    }
    assert(rows[rows.len() - 1] == rows.last());
}

/// Where a variable stands in a telemetry row.
#[derive(Debug, Clone, Copy, PartialEq, Eq, Structural)]
pub struct VarInfo {
    pub kind: i32,
    pub offset: i32,
    pub count: i32,
}

/// Whether the name at `at` is `name`: its characters, each in one byte, and then
/// a zero byte or the end of the space for names.
pub open spec fn named(bytes: Seq<u8>, at: int, name: Seq<char>) -> bool {
    &&& name.len() <= NAME_LEN
    &&& forall|i: int|
        0 <= i < name.len() ==> bytes[at + i] as int == #[trigger] name[i] as int
    &&& name.len() < NAME_LEN ==> bytes[at + name.len()] == 0
}

fn is_named(bytes: &[u8], at: usize, name: &str) -> (r: bool)
    requires
        at + NAME_LEN <= bytes@.len(),
    ensures
        r == named(bytes@, at as int, name@),
{
    let n: usize = name.unicode_len();
    let total: usize = bytes.len();
    if n > NAME_LEN {
        return false;
    }
    let mut i: usize = 0;
    while i < n
        invariant
            i <= n,
            n == name@.len(),
            n <= NAME_LEN,
            total == bytes@.len(),
            at + NAME_LEN <= total,
            forall|k: int| 0 <= k < i ==> bytes@[at + k] as int == #[trigger] name@[k] as int,
        decreases n - i,
    {
        let c: char = name.get_char(i);
        if bytes[at + i] as u32 != c as u32 {
            assert(bytes@[at + i] as int != name@[i as int] as int);
            return false;
        }
        i = i + 1;
    }
    n == NAME_LEN || bytes[at + n] == 0
}

/// Where the header of variable `i` starts.
pub open spec fn var_place(h: Header, i: int) -> int {
    h.var_header_offset + VAR_HEADER_LEN * i
}

/// The place of the first variable from `from` on with a name, among those whose
/// headers lie inside the bytes.
pub open spec fn var_named(bytes: Seq<u8>, h: Header, name: Seq<char>, from: int) -> Option<int>
    decreases h.num_vars - from,
{
    if from >= h.num_vars || var_place(h, from) + VAR_HEADER_LEN > bytes.len() {
        None
    } else if named(bytes, var_place(h, from) + 16, name) {
        Some(from)
    } else {
        var_named(bytes, h, name, from + 1)
    }
}

/// What the header at a place says of its variable.
pub open spec fn var_info(bytes: Seq<u8>, at: int) -> VarInfo {
    VarInfo { kind: word(bytes, at), offset: word(bytes, at + 4), count: word(bytes, at + 8) }
}

/// Looks a variable up by its name.
pub fn find_var(bytes: &[u8], h: &Header, name: &str) -> (r: Option<VarInfo>)
    requires
        h.num_vars >= 0,
        h.var_header_offset >= 0,
    ensures
        r == (match var_named(bytes@, *h, name@, 0) {
            Some(i) => Some(var_info(bytes@, var_place(*h, i))),
            None => None,
        }),
{
    let start: u64 = h.var_header_offset as u64;
    let mut i: i32 = 0;
    while i < h.num_vars
        invariant
            0 <= i <= h.num_vars,
            start == h.var_header_offset,
            var_named(bytes@, *h, name@, 0) == var_named(bytes@, *h, name@, i as int),
        decreases h.num_vars - i,
    {
        let at: u64 = start + VAR_HEADER_LEN as u64 * i as u64;
        if at + VAR_HEADER_LEN as u64 > bytes.len() as u64 {
            return None;
        }
        let place: usize = at as usize;
        if is_named(bytes, place + 16, name) {
            return Some(
                VarInfo {
                    kind: word_at(bytes, place),
                    offset: word_at(bytes, place + 4),
                    count: word_at(bytes, place + 8),
                },
            );
        }
        i = i + 1;
    }
    None
}

/// The variables without which no frame can be made.
pub open spec fn required() -> Seq<Seq<char>> {
    seq![
        "SessionTime"@,
        "SessionTick"@,
        "SessionState"@,
        "SessionNum"@,
        "SessionFlags"@,
        "PlayerCarIdx"@,
        "PlayerCarPosition"@,
        "OnPitRoad"@,
        "Lap"@,
        "LapDistPct"@,
        "LapLastLapTime"@,
        "CarIdxLapDistPct"@,
        "CarIdxPosition"@,
        "CarIdxOnPitRoad"@,
        "CarIdxLapCompleted"@,
    ]
}

/// The variables without which no frame can be made.
pub fn required_vars() -> (r: Vec<&'static str>)
    ensures
        r@.map_values(|s: &'static str| s@) == required(),
{
    let r: Vec<&'static str> = vec![
        "SessionTime",
        "SessionTick",
        "SessionState",
        "SessionNum",
        "SessionFlags",
        "PlayerCarIdx",
        "PlayerCarPosition",
        "OnPitRoad",
        "Lap",
        "LapDistPct",
        "LapLastLapTime",
        "CarIdxLapDistPct",
        "CarIdxPosition",
        "CarIdxOnPitRoad",
        "CarIdxLapCompleted",
    ];
    assert(r@.map_values(|s: &'static str| s@) =~= required());
    r
}

/// Whether every required variable is there.
pub fn has_required_vars(bytes: &[u8], h: &Header) -> (r: bool)
    requires
        h.num_vars >= 0,
        h.var_header_offset >= 0,
    ensures
        r == forall|i: int|
            0 <= i < required().len() ==> var_named(bytes@, *h, #[trigger] required()[i], 0)
                is Some,
{
    let names: Vec<&'static str> = required_vars();
    let mut i: usize = 0;
    while i < names.len()
        invariant
            i <= names@.len(),
            h.num_vars >= 0,
            h.var_header_offset >= 0,
            names@.map_values(|s: &'static str| s@) == required(),
            forall|k: int|
                0 <= k < i ==> var_named(bytes@, *h, #[trigger] required()[k], 0) is Some,
        decreases names.len() - i,
    {
        assert(required()[i as int] == names@[i as int]@);
        assert(names@.len() == required().len());
        if find_var(bytes, h, names[i]).is_none() {
            return false;
        }
        i = i + 1;
    }
    assert(names@.len() == required().len());
    true
}

/// The part of the memory that holds the newest telemetry row, where it lies
/// inside.
pub fn latest_row_range(h: &Header, mapped: usize) -> (r: Option<(usize, usize)>)
    requires
        h.var_bufs@.len() > 0,
        h.buf_len >= 0,
    ensures
        ({
            let offset = newest(h.var_bufs@).buf_offset;
            r == (if offset >= 0 && offset + h.buf_len <= mapped {
                Some((offset as usize, (offset + h.buf_len) as usize))
            } else {
                None
            })
        }),
{
    buffer_range(latest_buf(&h.var_bufs).buf_offset, h.buf_len as usize, mapped)
}

/// How many bytes stand before the first zero byte.
pub open spec fn text_len(bytes: Seq<u8>) -> nat
    decreases bytes.len(),
{
    if bytes.len() == 0 || bytes[0] == 0 {
        0
    } else {
        1 + text_len(bytes.skip(1))
    }
}

/// The part of the memory that holds the session description, without the zero
/// byte at its end; `None` where it does not lie inside.
pub fn session_text_range(bytes: &[u8], h: &Header) -> (r: Option<(usize, usize)>)
    requires
        h.session_info_offset >= 0,
        h.session_info_len >= 0,
    ensures
        ({
            let from = h.session_info_offset as int;
            let to = from + h.session_info_len;
            r == (if to <= bytes@.len() {
                Some((from as usize, (from + text_len(bytes@.subrange(from, to))) as usize))
            } else {
                None
            })
        }),
{
    match buffer_range(h.session_info_offset, h.session_info_len as usize, bytes.len()) {
        Some((from, to)) => {
            let ghost all = bytes@.subrange(from as int, to as int);
            let mut end: usize = from;
            assert(all.skip(0) =~= all);
            while end < to && bytes[end] != 0
                invariant
                    from <= end <= to <= bytes@.len(),
                    all == bytes@.subrange(from as int, to as int),
                    text_len(all) == (end - from) + text_len(all.skip(end - from)),
                decreases to - end,
            {
                let ghost rest = all.skip(end - from);
                assert(rest[0] == bytes@[end as int]);
                assert(rest.skip(1) =~= all.skip(end + 1 - from));
                end = end + 1;
            }
            let ghost rest = all.skip(end - from);
            assert(rest.len() == to - end);
            assert(end < to ==> rest[0] == bytes@[end as int]);
            Some((from, end))
        },
        None => None,
    }
}

/// Four bytes are a number with its lowest byte first; one whose highest bit is set lies
/// below zero.
pub proof fn a_word_has_its_lowest_byte_first(bytes: Seq<u8>, at: int)
    requires
        0 <= at,
        at + 4 <= bytes.len(),
    ensures
        ({
            let n = bytes[at] + 256 * (bytes[at + 1] + 256 * (bytes[at + 2] + 256 * bytes[at + 3]));
            &&& bytes[at + 3] < 128 ==> word(bytes, at) == n
            &&& bytes[at + 3] >= 128 ==> word(bytes, at) == n - 65536 * 65536 && word(bytes, at) < 0
        }),
{
}

/// The header is a row of words: the second is the status, the fourth counts the session
/// descriptions, and the four behind it are the length and the place of the description,
/// the number of variables and the place of their headers; then come the number of rows
/// and their length. From the thirteenth on each row has four words, the tick and the
/// place first. There are one to four rows, and no length, count or place is negative.
pub proof fn the_header_is_a_row_of_words(h: Header, bytes: Seq<u8>, i: int)
    requires
        has_header(bytes),
        is_header(h, bytes),
        0 <= i < h.var_bufs@.len(),
    ensures
        bytes.len() >= 28 * 4,
        h.status == word(bytes, 4 * 1int),
        h.session_info_update == word(bytes, 4 * 3int),
        h.session_info_len == word(bytes, 4 * 4int) && h.session_info_len >= 0,
        h.session_info_offset == word(bytes, 4 * 5int) && h.session_info_offset >= 0,
        h.num_vars == word(bytes, 4 * 6int) && h.num_vars >= 0,
        h.var_header_offset == word(bytes, 4 * 7int) && h.var_header_offset >= 0,
        h.var_bufs@.len() == word(bytes, 4 * 8int),
        1 <= h.var_bufs@.len() <= 4,
        h.buf_len == word(bytes, 4 * 9int) && h.buf_len >= 0,
        h.var_bufs@[i].tick_count == word(bytes, (12 + 4 * i) * 4),
        h.var_bufs@[i].buf_offset == word(bytes, (13 + 4 * i) * 4),
{
}

/// The newest row is the first of those with the highest tick.
pub proof fn the_newest_row_is_the_first_of_its_tick(rows: Seq<VarBuf>) -> (k: int)
    requires
        rows.len() > 0,
    ensures
        0 <= k < rows.len(),
        newest(rows) == rows[k],
        forall|j: int| 0 <= j < rows.len() ==> (#[trigger] rows[j]).tick_count <= rows[k].tick_count,
        forall|j: int| 0 <= j < k ==> (#[trigger] rows[j]).tick_count < rows[k].tick_count,
    decreases rows.len(),
{
    let n = rows.len() - 1;
    if n == 0 {
        0
    } else {
        let front = rows.drop_last();
        let k = the_newest_row_is_the_first_of_its_tick(front);
        assert forall|j: int| 0 <= j < n implies front[j] == #[trigger] rows[j] by {}
        assert(front[k] == rows[k]);
        assert(rows[n] == rows.last());
        if rows[n].tick_count > rows[k].tick_count {
            n
        } else {
            k
        }
    }
}

/// A variable that is found has the name, its header lies inside the bytes, and no header
/// before it has the name. Headers have 144 bytes each, with the name from the seventeenth
/// on; kind, place and count are the first three words.
pub proof fn a_variable_is_found_by_its_name(
    bytes: Seq<u8>,
    h: Header,
    name: Seq<char>,
    from: int,
)
    requires
        0 <= from,
        h.var_header_offset >= 0,
    ensures
        match var_named(bytes, h, name, from) {
            Some(i) => {
                let at = h.var_header_offset + 144 * i;
                &&& from <= i < h.num_vars
                &&& at + 144 <= bytes.len()
                &&& named(bytes, at + 16, name)
                &&& forall|j: int|
                    from <= j < i ==> !named(
                        bytes,
                        #[trigger] (h.var_header_offset + 144 * j) + 16,
                        name,
                    )
                &&& var_info(bytes, var_place(h, i)).kind == word(bytes, at)
                &&& var_info(bytes, var_place(h, i)).offset == word(bytes, at + 4)
                &&& var_info(bytes, var_place(h, i)).count == word(bytes, at + 8)
            },
            None => forall|j: int|
                from <= j < h.num_vars && #[trigger] (h.var_header_offset + 144 * j) + 144
                    <= bytes.len() ==> !named(bytes, h.var_header_offset + 144 * j + 16, name),
        },
    decreases h.num_vars - from,
{
    if from < h.num_vars && var_place(h, from) + 144 <= bytes.len() && !named(
        bytes,
        var_place(h, from) + 16,
        name,
    ) {
        a_variable_is_found_by_its_name(bytes, h, name, from + 1);
    }
}

/// The text ends before its first zero byte, or with the bytes.
pub proof fn the_text_ends_before_its_first_zero(bytes: Seq<u8>)
    ensures
        text_len(bytes) <= bytes.len(),
        forall|i: int| 0 <= i < text_len(bytes) ==> #[trigger] bytes[i] != 0,
        text_len(bytes) < bytes.len() ==> bytes[text_len(bytes) as int] == 0,
    decreases bytes.len(),
{
    if bytes.len() > 0 && bytes[0] != 0 {
        let rest = bytes.skip(1);
        the_text_ends_before_its_first_zero(rest);
        assert forall|i: int| 0 <= i < text_len(bytes) implies #[trigger] bytes[i] != 0 by {
            if i > 0 {
                assert(rest[i - 1] == bytes[i]);
            }
        }
        if text_len(bytes) < bytes.len() {
            assert(rest[text_len(rest) as int] == bytes[text_len(bytes) as int]);
        }
    }
}

/// A header has one name: two names that are found at one place are the same.
pub proof fn a_header_has_one_name(bytes: Seq<u8>, at: int, a: Seq<char>, b: Seq<char>)
    requires
        named(bytes, at, a),
        named(bytes, at, b),
        forall|i: int| 0 <= i < a.len() ==> #[trigger] a[i] as int != 0,
        forall|i: int| 0 <= i < b.len() ==> #[trigger] b[i] as int != 0,
    ensures
        a == b,
        a.len() <= 32,
{
    if a.len() < b.len() {
        assert(bytes[at + a.len()] as int == b[a.len() as int] as int);
    }
    if b.len() < a.len() {
        assert(bytes[at + b.len()] as int == a[b.len() as int] as int);
    }
    assert(a =~= b) by {
        assert forall|i: int| 0 <= i < a.len() implies a[i] == b[i] by {
            assert(bytes[at + i] as int == a[i] as int);
            assert(bytes[at + i] as int == b[i] as int);
        }
    }
}

} // verus!

//! The tilemap text format and its loader.
//!
//! A map is a grid of single-byte tile codes, one row per line. A `/`
//! byte ends tile parsing for its line and routes the rest of the line
//! to door-declaration parsing: the remainder is split on spaces into
//! `<path> <x> <y>`, and the declarations form a queue consumed in
//! file order by the `D` tiles met in left-to-right, top-to-bottom
//! scan order. Lines whose `/` sits in column zero contribute no
//! tiles and do not advance the grid row, so door comments never
//! shift the rows below them.
//!
//! Loading fails when a door declaration is malformed, when a `D`
//! tile finds the queue empty, or when declarations are left over at
//! the end: the number of `D` tiles must equal the number of
//! declarations.

use vstd::prelude::*;

use crate::geometry::TilePos;
use crate::player::Player;
use crate::TILE_UNITS;

verus! {

/// `/` — starts a door declaration.
pub const SLASH: u8 = 47;

/// The space byte separating door-declaration fields.
pub const SPACE: u8 = 32;

/// `D` — a door tile.
pub const DOOR_GLYPH: u8 = 68;

/// What a tile does, derived from its glyph.
#[derive(Clone, Copy, Debug, PartialEq, Eq, Structural)]
pub enum TileKind {
    /// `#`: a collider.
    Wall,
    /// `W`: water decor, also a collider.
    Water,
    /// `.`: walkable floor.
    Floor,
    /// `G`: encounter grass.
    Grass,
    /// `D`: a door with an attached destination.
    Door,
    /// Anything else: rendered distinctly so mapping errors show.
    Misc,
}

/// The behaviour a glyph stands for.
pub open spec fn kind_of_glyph(g: u8) -> TileKind {
    if g == 35 {  // '#'
        TileKind::Wall
    } else if g == 87 {  // 'W'
        TileKind::Water
    } else if g == 46 {  // '.'
        TileKind::Floor
    } else if g == 71 {  // 'G'
        TileKind::Grass
    } else if g == 68 {  // 'D'
        TileKind::Door
    } else {
        TileKind::Misc
    }
}

/// Whether tiles of this kind block movement.
pub open spec fn is_collider(k: TileKind) -> bool {
    k is Wall || k is Water
}

/// Exec mirror of [`kind_of_glyph`].
pub fn glyph_kind(g: u8) -> (k: TileKind)
    ensures
        k == kind_of_glyph(g),
{
    if g == 35 {
        TileKind::Wall
    } else if g == 87 {
        TileKind::Water
    } else if g == 46 {
        TileKind::Floor
    } else if g == 71 {
        TileKind::Grass
    } else if g == 68 {
        TileKind::Door
    } else {
        TileKind::Misc
    }
}

/// The sprite-sheet index a glyph is drawn with.
pub open spec fn sprite_index_of(g: u8) -> usize {
    if g == 35 {  // '#'
        0
    } else if g == 46 {  // '.'
        11
    } else if g == 87 {  // 'W'
        4
    } else if g == 68 {  // 'D'
        48
    } else if g == 71 {  // 'G'
        65
    } else if g == 82 {  // 'R'
        8
    } else if g == 84 {  // 'T'
        89
    } else if g == 64 {  // '@'
        77
    } else {
        37
    }
}

/// Exec mirror of [`sprite_index_of`].
pub fn sprite_lookup(g: u8) -> (index: usize)
    ensures
        index == sprite_index_of(g),
{
    if g == 35 {
        0
    } else if g == 46 {
        11
    } else if g == 87 {
        4
    } else if g == 68 {
        48
    } else if g == 71 {
        65
    } else if g == 82 {
        8
    } else if g == 84 {
        89
    } else if g == 64 {
        77
    } else {
        37
    }
}

/// A door's destination: a map path and grid coordinates in the new
/// map.
#[derive(Debug)]
pub struct Door {
    pub path: Vec<u8>,
    pub new_x: i32,
    pub new_y: i32,
}

/// Ghost model of a door destination.
pub struct DoorModel {
    pub path: Seq<u8>,
    pub new_x: int,
    pub new_y: int,
}

impl View for Door {
    type V = DoorModel;

    open spec fn view(&self) -> DoorModel {
        DoorModel { path: self.path@, new_x: self.new_x as int, new_y: self.new_y as int }
    }
}

impl Door {
    /// A field-for-field copy of this door.
    pub fn duplicate(&self) -> (r: Door)
        ensures
            r@ == self@,
    {
        let mut path: Vec<u8> = Vec::new();
        let mut i: usize = 0;
        while i < self.path.len()
            invariant
                0 <= i <= self.path@.len(),
                path@ == self.path@.take(i as int),
            decreases self.path@.len() - i,
        {
            path.push(self.path[i]);
            assert(path@ =~= self.path@.take(i + 1));
            i = i + 1;
        }
        assert(path@ =~= self.path@);
        Door { path, new_x: self.new_x, new_y: self.new_y }
    }
}

/// One cell of a loaded map. `col` and `row` are grid coordinates
/// (row grows downward); a door tile carries its destination.
#[derive(Debug)]
pub struct Tile {
    pub glyph: u8,
    pub col: usize,
    pub row: usize,
    pub door: Option<Door>,
}

/// Ghost model of a tile.
pub struct TileModel {
    pub glyph: u8,
    pub col: int,
    pub row: int,
    pub door: Option<DoorModel>,
}

impl View for Tile {
    type V = TileModel;

    open spec fn view(&self) -> TileModel {
        TileModel {
            glyph: self.glyph,
            col: self.col as int,
            row: self.row as int,
            door: match self.door {
                Some(d) => Some(d@),
                None => None,
            },
        }
    }
}

impl Tile {
    /// The behaviour of this tile.
    pub fn kind(&self) -> (k: TileKind)
        ensures
            k == kind_of_glyph(self.glyph),
    {
        glyph_kind(self.glyph)
    }

    /// This tile's world-space centre.
    pub fn world_pos(&self) -> (p: TilePos)
        requires
            self.col <= 100_000,
            self.row <= 100_000,
        ensures
            p.x == self.col * TILE_UNITS,
            p.y == -(self.row * TILE_UNITS),
    {
        TilePos { x: (self.col as i32) * TILE_UNITS, y: -((self.row as i32) * TILE_UNITS) }
    }
}

/// Why loading a map failed.
#[derive(Clone, Copy, Debug, PartialEq, Eq, Structural)]
pub enum MapError {
    /// A door declaration is missing a field or has a non-numeric
    /// coordinate.
    BadComment,
    /// A `D` tile was met with no pending door declaration.
    MissingDoorExit,
    /// Door declarations were left unconsumed at the end of the file.
    UnusedDoorExits,
}

// ---------------------------------------------------------------
// Line decomposition
// ---------------------------------------------------------------

/// Number of leading bytes of `s` before the first occurrence of `b`
/// (the whole length when `b` does not occur).
pub open spec fn prefix_len_until(s: Seq<u8>, b: u8) -> nat
    decreases s.len(),
{
    if s.len() == 0 {
        0
    } else if s[0] == b {
        0
    } else {
        1 + prefix_len_until(s.skip(1), b)
    }
}

/// `prefix_len_until` is exactly the index of the first occurrence.
pub proof fn lemma_prefix_len_until(s: Seq<u8>, b: u8)
    ensures
        prefix_len_until(s, b) <= s.len(),
        forall|j: int| 0 <= j < prefix_len_until(s, b) ==> #[trigger] s[j] != b,
        prefix_len_until(s, b) < s.len() ==> s[prefix_len_until(s, b) as int] == b,
    decreases s.len(),
{
    if s.len() != 0 && s[0] != b {
        lemma_prefix_len_until(s.skip(1), b);
        assert(forall|j: int|
            1 <= j < s.len() ==> #[trigger] s[j] == s.skip(1)[j - 1]);
    }
}

/// The index where the first `b` sits is pinned: any index below which
/// no `b` occurs, and which holds `b` or is the end, is the prefix
/// length.
pub proof fn lemma_prefix_len_until_is(s: Seq<u8>, b: u8, m: int)
    requires
        0 <= m <= s.len(),
        forall|j: int| 0 <= j < m ==> #[trigger] s[j] != b,
        m < s.len() ==> s[m] == b,
    ensures
        prefix_len_until(s, b) == m,
{
    lemma_prefix_len_until(s, b);
    let k = prefix_len_until(s, b) as int;
    if k < m {
        assert(s[k] == b);
        assert(s[k] != b);
    }
    if m < k {
        assert(s[m] != b);
    }
}

/// Length of the tile portion of a line: everything before the first
/// `/`.
pub open spec fn tile_prefix_len(l: Seq<u8>) -> nat {
    prefix_len_until(l, SLASH)
}

/// The tile portion of a line.
pub open spec fn tile_prefix(l: Seq<u8>) -> Seq<u8> {
    l.take(tile_prefix_len(l) as int)
}

/// Whether a line carries a door declaration.
pub open spec fn has_comment(l: Seq<u8>) -> bool {
    tile_prefix_len(l) < l.len()
}

/// The door declaration text: everything after the first `/`.
pub open spec fn comment_body(l: Seq<u8>) -> Seq<u8> {
    l.skip(tile_prefix_len(l) as int + 1)
}

/// Whether the line starts with `/` and so contributes no grid row.
pub open spec fn is_comment_row(l: Seq<u8>) -> bool {
    l.len() > 0 && l[0] == SLASH
}

// ---------------------------------------------------------------
// Door declarations
// ---------------------------------------------------------------

/// `s` split on single spaces; empty fields are kept, as the game's
/// splitter keeps them.
pub open spec fn split_spaces(s: Seq<u8>) -> Seq<Seq<u8>>
    decreases s.len(),
{
    let k = prefix_len_until(s, SPACE);
    if k >= s.len() {
        seq![s]
    } else {
        seq![s.take(k as int)] + split_spaces(s.skip(k as int + 1))
    }
}

/// An ASCII decimal digit.
pub open spec fn is_digit(b: u8) -> bool {
    48 <= b <= 57
}

/// Whether every byte of `s` is a decimal digit.
pub open spec fn all_digits(s: Seq<u8>) -> bool {
    forall|i: int| 0 <= i < s.len() ==> is_digit(#[trigger] s[i])
}

/// The value of a digit string, most significant digit first.
pub open spec fn digits_value(s: Seq<u8>) -> int
    decreases s.len(),
{
    if s.len() == 0 {
        0
    } else {
        digits_value(s.drop_last()) * 10 + (s.last() - 48)
    }
}

/// The digits of an integer token, after any single leading sign.
pub open spec fn int_token_body(s: Seq<u8>) -> Seq<u8> {
    if s.len() > 0 && (s[0] == 45 || s[0] == 43) {  // '-' or '+'
        s.skip(1)
    } else {
        s
    }
}

/// Whether an integer token is negative.
pub open spec fn int_token_negative(s: Seq<u8>) -> bool {
    s.len() > 0 && s[0] == 45
}

/// The signed value an integer token denotes.
pub open spec fn int_token_value(s: Seq<u8>) -> int {
    if int_token_negative(s) {
        -digits_value(int_token_body(s))
    } else {
        digits_value(int_token_body(s))
    }
}

/// Whether `s` parses as an `i32`: an optional sign, at least one
/// digit, and a value in range.
pub open spec fn valid_i32_token(s: Seq<u8>) -> bool {
    &&& int_token_body(s).len() > 0
    &&& all_digits(int_token_body(s))
    &&& i32::MIN <= int_token_value(s) <= i32::MAX
}

/// Whether a door declaration body is well formed: at least three
/// space-separated fields, the second and third numeric.
pub open spec fn comment_wf(body: Seq<u8>) -> bool {
    let w = split_spaces(body);
    &&& w.len() >= 3
    &&& valid_i32_token(w[1])
    &&& valid_i32_token(w[2])
}

/// The door a well-formed declaration body describes.
pub open spec fn comment_door(body: Seq<u8>) -> DoorModel {
    let w = split_spaces(body);
    DoorModel { path: w[0], new_x: int_token_value(w[1]), new_y: int_token_value(w[2]) }
}

// ---------------------------------------------------------------
// Exec parsing helpers
// ---------------------------------------------------------------

/// The views of a list of byte strings.
pub open spec fn lines_view(s: Seq<Vec<u8>>) -> Seq<Seq<u8>> {
    s.map_values(|v: Vec<u8>| v@)
}

/// Index of the first `b` in `s` at or after `from` (the length when
/// none occurs).
fn find_from(s: &Vec<u8>, from: usize, b: u8) -> (k: usize)
    requires
        from <= s@.len(),
    ensures
        from <= k <= s@.len(),
        forall|j: int| from <= j < k ==> #[trigger] s@[j] != b,
        k < s@.len() ==> s@[k as int] == b,
        k - from == prefix_len_until(s@.skip(from as int), b),
{
    let mut k: usize = from;
    while k < s.len()
        invariant_except_break
            from <= k <= s@.len(),
            forall|j: int| from <= j < k ==> #[trigger] s@[j] != b,
        ensures
            from <= k <= s@.len(),
            forall|j: int| from <= j < k ==> #[trigger] s@[j] != b,
            k < s@.len() ==> s@[k as int] == b,
        decreases s@.len() - k,
    {
        if s[k] == b {
            break ;
        }
        k = k + 1;
    }
    proof {
        let t = s@.skip(from as int);
        assert(forall|j: int| 0 <= j < t.len() ==> #[trigger] t[j] == s@[j + from]);
        lemma_prefix_len_until_is(t, b, k - from);
    }
    k
}

/// The bytes of `s` from `from` (inclusive) to `to` (exclusive).
fn copy_bytes(s: &Vec<u8>, from: usize, to: usize) -> (r: Vec<u8>)
    requires
        from <= to <= s@.len(),
    ensures
        r@ == s@.subrange(from as int, to as int),
{
    let mut r: Vec<u8> = Vec::new();
    let mut i: usize = from;
    while i < to
        invariant
            from <= i <= to <= s@.len(),
            r@ == s@.subrange(from as int, i as int),
        decreases to - i,
    {
        r.push(s[i]);
        assert(r@ =~= s@.subrange(from as int, i + 1));
        i = i + 1;
    }
    r
}

/// `s` split on single spaces, as a list of byte strings.
fn split_line_fields(s: &Vec<u8>) -> (r: Vec<Vec<u8>>)
    ensures
        lines_view(r@) == split_spaces(s@),
{
    let mut acc: Vec<Vec<u8>> = Vec::new();
    let mut pos: usize = 0;
    proof {
        assert(s@.skip(0) =~= s@);
        assert(lines_view(acc@) + split_spaces(s@) =~= split_spaces(s@));
    }
    loop
        invariant_except_break
            pos <= s@.len(),
            lines_view(acc@) + split_spaces(s@.skip(pos as int)) == split_spaces(s@),
        ensures
            lines_view(acc@) == split_spaces(s@),
        decreases s@.len() - pos,
    {
        let k = find_from(s, pos, SPACE);
        let tok = copy_bytes(s, pos, k);
        proof {
            let t = s@.skip(pos as int);
            assert(prefix_len_until(t, SPACE) == k - pos);
            if k == s@.len() {
                assert(tok@ =~= t);
                assert(split_spaces(t) == seq![t]);
                assert(lines_view(acc@.push(tok)) =~= lines_view(acc@) + seq![tok@]);
            } else {
                assert(t.take(k - pos) =~= tok@);
                assert(t.skip(k - pos + 1) =~= s@.skip(k + 1));
                assert(split_spaces(t) == seq![t.take(k - pos)] + split_spaces(t.skip(k - pos + 1)));
                assert(lines_view(acc@.push(tok)) =~= lines_view(acc@) + seq![tok@]);
            }
        }
        acc.push(tok);
        if k == s.len() {
            proof {
                assert(lines_view(acc@) =~= split_spaces(s@));
            }
            break ;
        }
        proof {
            assert(lines_view(acc@) + split_spaces(s@.skip(k + 1)) =~= split_spaces(s@));
        }
        pos = k + 1;
    }
    acc
}

/// Parse a byte string as an `i32`: an optional `+` or `-` sign
/// followed by at least one decimal digit, with the value in range.
pub fn parse_i32(s: &Vec<u8>) -> (r: Option<i32>)
    ensures
        r is Some <==> valid_i32_token(s@),
        r matches Some(v) ==> v == int_token_value(s@),
{
    let ghost body = int_token_body(s@);
    let mut start: usize = 0;
    let mut neg: bool = false;
    if s.len() > 0 && (s[0] == 45 || s[0] == 43) {
        start = 1;
        neg = s[0] == 45;
    }
    assert(body =~= s@.skip(start as int));
    assert(neg == int_token_negative(s@));
    if start >= s.len() {
        // sign with no digits, or an empty token
        assert(body.len() == 0);
        return None;
    }
    let mut acc: u64 = 0;
    let mut big: bool = false;
    let mut i: usize = start;
    while i < s.len()
        invariant
            start <= i <= s@.len(),
            body == s@.skip(start as int),
            body == int_token_body(s@),
            neg == int_token_negative(s@),
            all_digits(body.take(i - start)),
            !big ==> acc == digits_value(body.take(i - start)) && acc <= 0x8000_0000,
            big ==> digits_value(body.take(i - start)) > 0x8000_0000,
        decreases s@.len() - i,
    {
        let b = s[i];
        if !(48 <= b && b <= 57) {
            assert(body[i - start] == s@[i as int]);
            assert(!all_digits(body));
            return None;
        }
        proof {
            assert(body.take(i - start + 1).drop_last() =~= body.take(i - start));
            assert(body.take(i - start + 1).last() == s@[i as int]);
            assert(all_digits(body.take(i - start + 1)));
        }
        let d: u64 = (b - 48) as u64;
        if big {
            proof {
                let prev = digits_value(body.take(i - start));
                assert(digits_value(body.take(i - start + 1)) == prev * 10 + d);
                assert(prev * 10 + d > 0x8000_0000);
            }
        } else {
            acc = acc * 10 + d;
            if acc > 0x8000_0000 {
                big = true;
            }
        }
        i = i + 1;
    }
    assert(body.take(i - start) =~= body);
    if big {
        // magnitude above 2^31: out of range for either sign
        return None;
    }
    if neg {
        let v: i32 = (-(acc as i64)) as i32;
        return Some(v);
    }
    if acc > 0x7fff_ffff {
        return None;
    }
    Some(acc as i32)
}

// ---------------------------------------------------------------
// The scan model
// ---------------------------------------------------------------

/// The loader's state between lines: the grid rows built so far, the
/// queue of pending door declarations, and the grid row the next tile
/// row will get.
pub struct ScanState {
    pub rows: Seq<Seq<TileModel>>,
    pub pending: Seq<DoorModel>,
    pub row: int,
}

/// The loader's state before the first line.
pub open spec fn init_scan_state() -> ScanState {
    ScanState { rows: seq![], pending: seq![], row: 0 }
}

/// Scan the tile portion `p` of a line from column `j`, appending one
/// tile per byte to `acc`. A `D` tile takes the front of the pending
/// door queue and fails when the queue is empty.
pub open spec fn scan_row(
    p: Seq<u8>,
    j: int,
    row: int,
    acc: Seq<TileModel>,
    pending: Seq<DoorModel>,
) -> Result<(Seq<TileModel>, Seq<DoorModel>), MapError>
    decreases p.len() - j,
{
    if j < 0 || j >= p.len() {
        Ok((acc, pending))
    } else if p[j] == DOOR_GLYPH {
        if pending.len() == 0 {
            Err(MapError::MissingDoorExit)
        } else {
            scan_row(
                p,
                j + 1,
                row,
                acc.push(TileModel { glyph: p[j], col: j, row, door: Some(pending[0]) }),
                pending.skip(1),
            )
        }
    } else {
        scan_row(
            p,
            j + 1,
            row,
            acc.push(TileModel { glyph: p[j], col: j, row, door: None }),
            pending,
        )
    }
}

/// Process one line: scan its tile portion, then, when a `/` is
/// present, parse the door declaration after it. A line whose `/`
/// sits in column zero contributes no grid row; any line with a
/// declaration leaves the grid row number unchanged.
pub open spec fn scan_line(st: ScanState, l: Seq<u8>) -> Result<ScanState, MapError> {
    let p = tile_prefix(l);
    match scan_row(p, 0, st.row, seq![], st.pending) {
        Err(e) => Err(e),
        Ok((tiles, pending1)) => {
            if !has_comment(l) {
                Ok(ScanState { rows: st.rows.push(tiles), pending: pending1, row: st.row + 1 })
            } else {
                let body = comment_body(l);
                if comment_wf(body) {
                    let rows1 = if is_comment_row(l) {
                        st.rows
                    } else {
                        st.rows.push(tiles)
                    };
                    Ok(
                        ScanState {
                            rows: rows1,
                            pending: pending1.push(comment_door(body)),
                            row: st.row,
                        },
                    )
                } else {
                    Err(MapError::BadComment)
                }
            }
        },
    }
}

/// Process the lines from index `i` on.
pub open spec fn scan_from(lines: Seq<Seq<u8>>, i: int, st: ScanState) -> Result<
    ScanState,
    MapError,
>
    decreases lines.len() - i,
{
    if i < 0 || i >= lines.len() {
        Ok(st)
    } else {
        match scan_line(st, lines[i]) {
            Err(e) => Err(e),
            Ok(st1) => scan_from(lines, i + 1, st1),
        }
    }
}

/// What loading a map file yields: the grid of tiles, or the first
/// error in scan order. Loading fails when door declarations are left
/// over, so a successful load consumed exactly one declaration per
/// `D` tile.
pub open spec fn parse_map_result(lines: Seq<Seq<u8>>) -> Result<Seq<Seq<TileModel>>, MapError> {
    match scan_from(lines, 0, init_scan_state()) {
        Err(e) => Err(e),
        Ok(st) => if st.pending.len() == 0 {
            Ok(st.rows)
        } else {
            Err(MapError::UnusedDoorExits)
        },
    }
}

// ---------------------------------------------------------------
// The loader
// ---------------------------------------------------------------

/// The views of a row of tiles.
pub open spec fn tiles_view(r: Seq<Tile>) -> Seq<TileModel> {
    r.map_values(|t: Tile| t@)
}

/// The views of a grid of tiles.
pub open spec fn rows_view(rows: Seq<Vec<Tile>>) -> Seq<Seq<TileModel>> {
    rows.map_values(|r: Vec<Tile>| tiles_view(r@))
}

/// The views of a queue of doors.
pub open spec fn doors_view(q: Seq<Door>) -> Seq<DoorModel> {
    q.map_values(|d: Door| d@)
}

/// A loaded map: the grid of tiles, row by row.
#[derive(Debug)]
pub struct TileMap {
    pub rows: Vec<Vec<Tile>>,
}

impl View for TileMap {
    type V = Seq<Seq<TileModel>>;

    open spec fn view(&self) -> Seq<Seq<TileModel>> {
        rows_view(self.rows@)
    }
}

impl TileMap {
    /// Each tile sits at the column it occupies in its row, its grid
    /// coordinates are small enough that its world position fits
    /// comfortably in `i32`, and a destination is attached to the
    /// door tiles and to no others.
    pub open spec fn wf(&self) -> bool {
        forall|a: int, b: int|
            0 <= a < self@.len() && 0 <= b < self@[a].len() ==> {
                &&& (#[trigger] self@[a][b]).col == b
                &&& 0 <= self@[a][b].row <= 100_000
                &&& self@[a][b].col <= 100_000
                &&& (self@[a][b].door is Some <==> self@[a][b].glyph == DOOR_GLYPH)
            }
    }
}

/// Load a map from its lines: one tile per byte before any `/`, door
/// declarations after it, exactly as [`parse_map_result`] describes.
#[verifier::loop_isolation(false)]
pub fn load_map(lines: &Vec<Vec<u8>>) -> (r: Result<TileMap, MapError>)
    requires
        lines@.len() <= 100_000,
        forall|n: int| 0 <= n < lines@.len() ==> (#[trigger] lines@[n]@.len()) <= 100_000,
    ensures
        r matches Ok(m) ==> parse_map_result(lines_view(lines@)) == Ok::<
            Seq<Seq<TileModel>>,
            MapError,
        >(m@) && m.wf(),
        r matches Err(e) ==> parse_map_result(lines_view(lines@)) == Err::<
            Seq<Seq<TileModel>>,
            MapError,
        >(e),
{
    let ghost lv = lines_view(lines@);
    let mut rows: Vec<Vec<Tile>> = Vec::new();
    let mut pending: Vec<Door> = Vec::new();
    let mut row: usize = 0;
    let mut i: usize = 0;
    proof {
        assert(rows_view(rows@) =~= init_scan_state().rows);
        assert(doors_view(pending@) =~= init_scan_state().pending);
    }
    while i < lines.len()
        invariant
            0 <= i <= lines@.len(),
            row <= i,
            scan_from(
                lv,
                i as int,
                ScanState {
                    rows: rows_view(rows@),
                    pending: doors_view(pending@),
                    row: row as int,
                },
            ) == scan_from(lv, 0, init_scan_state()),
            forall|a: int, b: int|
                0 <= a < rows_view(rows@).len() && 0 <= b < rows_view(rows@)[a].len() ==> {
                    &&& (#[trigger] rows_view(rows@)[a][b]).col == b
                    &&& 0 <= rows_view(rows@)[a][b].row <= 100_000
                    &&& rows_view(rows@)[a][b].col <= 100_000
                    &&& (rows_view(rows@)[a][b].door is Some <==> rows_view(rows@)[a][b].glyph
                        == DOOR_GLYPH)
                },
        decreases lines@.len() - i,
    {
        let l: &Vec<u8> = &lines[i];
        let ghost st_line = ScanState {
            rows: rows_view(rows@),
            pending: doors_view(pending@),
            row: row as int,
        };
        let ghost pending0 = doors_view(pending@);
        let ghost p = tile_prefix(l@);
        proof {
            lemma_prefix_len_until(l@, SLASH);
        }
        let mut tiles: Vec<Tile> = Vec::new();
        let mut j: usize = 0;
        proof {
            assert(tiles_view(tiles@) =~= seq![]);
        }
        while j < l.len() && l[j] != SLASH
            invariant
                0 <= j <= l@.len(),
                forall|k: int| 0 <= k < j ==> #[trigger] l@[k] != SLASH,
                scan_row(p, 0, row as int, seq![], pending0) == scan_row(
                    p,
                    j as int,
                    row as int,
                    tiles_view(tiles@),
                    doors_view(pending@),
                ),
                tiles_view(tiles@).len() == j,
                forall|b: int|
                    0 <= b < tiles_view(tiles@).len() ==> {
                        &&& (#[trigger] tiles_view(tiles@)[b]).col == b
                        &&& 0 <= tiles_view(tiles@)[b].row <= 100_000
                        &&& tiles_view(tiles@)[b].col <= 100_000
                        &&& (tiles_view(tiles@)[b].door is Some <==> tiles_view(tiles@)[b].glyph
                            == DOOR_GLYPH)
                    },
            decreases l@.len() - j,
        {
            let c = l[j];
            proof {
                // every byte up to and including j differs from `/`,
                // so the tile prefix reaches past j
                assert(tile_prefix_len(l@) > j) by {
                    if tile_prefix_len(l@) <= j {
                        assert(l@[tile_prefix_len(l@) as int] == SLASH);
                    }
                }
                assert(p[j as int] == l@[j as int]);
            }
            if c == DOOR_GLYPH {
                if pending.len() == 0 {
                    proof {
                        assert(scan_row(p, 0, row as int, seq![], pending0) == Err::<
                            (Seq<TileModel>, Seq<DoorModel>),
                            MapError,
                        >(MapError::MissingDoorExit));
                        assert(scan_line(st_line, lv[i as int]) == Err::<ScanState, MapError>(
                            MapError::MissingDoorExit,
                        ));
                        assert(scan_from(lv, 0, init_scan_state()) == Err::<ScanState, MapError>(
                            MapError::MissingDoorExit,
                        ));
                    }
                    return Err(MapError::MissingDoorExit);
                }
                let ghost pv_before = doors_view(pending@);
                let ghost tv_before = tiles_view(tiles@);
                let d = pending.remove(0);
                let t = Tile { glyph: c, col: j, row, door: Some(d) };
                tiles.push(t);
                proof {
                    assert(doors_view(pending@) =~= pv_before.skip(1));
                    assert(tiles_view(tiles@) =~= tv_before.push(t@));
                    assert(t@ == TileModel {
                        glyph: p[j as int],
                        col: j as int,
                        row: row as int,
                        door: Some(pv_before[0]),
                    });
                }
            } else {
                let ghost tv_before = tiles_view(tiles@);
                let t = Tile { glyph: c, col: j, row, door: None };
                tiles.push(t);
                proof {
                    assert(tiles_view(tiles@) =~= tv_before.push(t@));
                    assert(t@ == TileModel {
                        glyph: p[j as int],
                        col: j as int,
                        row: row as int,
                        door: None,
                    });
                }
            }
            j = j + 1;
        }
        if j == l.len() {
            // no door declaration on this line
            proof {
                lemma_prefix_len_until_is(l@, SLASH, j as int);
                assert(p =~= l@);
                assert(!has_comment(l@));
                assert(scan_row(p, 0, row as int, seq![], pending0) == Ok::<
                    (Seq<TileModel>, Seq<DoorModel>),
                    MapError,
                >((tiles_view(tiles@), doors_view(pending@))));
            }
            let ghost rows_before = rows_view(rows@);
            let ghost tv = tiles_view(tiles@);
            rows.push(tiles);
            row = row + 1;
            proof {
                assert(rows_view(rows@) =~= rows_before.push(tv));
                assert(scan_line(st_line, lv[i as int]) == Ok::<ScanState, MapError>(
                    ScanState {
                        rows: rows_view(rows@),
                        pending: doors_view(pending@),
                        row: row as int,
                    },
                ));
            }
        } else {
            // a `/` at column j: the rest of the line declares a door
            proof {
                lemma_prefix_len_until_is(l@, SLASH, j as int);
                assert(p =~= l@.take(j as int));
                assert(has_comment(l@));
                assert(scan_row(p, 0, row as int, seq![], pending0) == Ok::<
                    (Seq<TileModel>, Seq<DoorModel>),
                    MapError,
                >((tiles_view(tiles@), doors_view(pending@))));
            }
            let body = copy_bytes(l, j + 1, l.len());
            proof {
                assert(body@ =~= comment_body(l@));
            }
            let mut fields = split_line_fields(&body);
            let ghost w = split_spaces(body@);
            if fields.len() < 3 {
                proof {
                    assert(w.len() == lines_view(fields@).len());
                    assert(!comment_wf(comment_body(l@)));
                    assert(scan_line(st_line, lv[i as int]) == Err::<ScanState, MapError>(
                        MapError::BadComment,
                    ));
                    assert(scan_from(lv, 0, init_scan_state()) == Err::<ScanState, MapError>(
                        MapError::BadComment,
                    ));
                }
                return Err(MapError::BadComment);
            }
            proof {
                assert(lines_view(fields@)[1] == fields@[1]@);
                assert(lines_view(fields@)[2] == fields@[2]@);
                assert(w[1] == fields@[1]@);
                assert(w[2] == fields@[2]@);
            }
            let x = parse_i32(&fields[1]);
            let y = parse_i32(&fields[2]);
            let (nx, ny) = match (x, y) {
                (Some(nx), Some(ny)) => (nx, ny),
                _ => {
                    proof {
                        assert(!comment_wf(comment_body(l@)));
                        assert(scan_line(st_line, lv[i as int]) == Err::<ScanState, MapError>(
                            MapError::BadComment,
                        ));
                        assert(scan_from(lv, 0, init_scan_state()) == Err::<ScanState, MapError>(
                            MapError::BadComment,
                        ));
                    }
                    return Err(MapError::BadComment);
                },
            };
            let path = fields.remove(0);
            let door = Door { path, new_x: nx, new_y: ny };
            proof {
                assert(comment_wf(comment_body(l@)));
                assert(w[0] == path@);
                assert(door@ == comment_door(comment_body(l@)));
            }
            let ghost pv_scanned = doors_view(pending@);
            pending.push(door);
            proof {
                assert(doors_view(pending@) =~= pv_scanned.push(door@));
            }
            let ghost rows_before = rows_view(rows@);
            let ghost tv = tiles_view(tiles@);
            if j == 0 {
                // the whole line is a declaration: no grid row
                proof {
                    assert(is_comment_row(l@));
                    assert(scan_line(st_line, lv[i as int]) == Ok::<ScanState, MapError>(
                        ScanState {
                            rows: rows_view(rows@),
                            pending: doors_view(pending@),
                            row: row as int,
                        },
                    ));
                }
            } else {
                rows.push(tiles);
                proof {
                    assert(!is_comment_row(l@));
                    assert(rows_view(rows@) =~= rows_before.push(tv));
                    assert(scan_line(st_line, lv[i as int]) == Ok::<ScanState, MapError>(
                        ScanState {
                            rows: rows_view(rows@),
                            pending: doors_view(pending@),
                            row: row as int,
                        },
                    ));
                }
            }
        }
        i = i + 1;
    }
    if pending.len() == 0 {
        let m = TileMap { rows };
        proof {
            assert(scan_from(lv, lines@.len() as int, ScanState {
                rows: m@,
                pending: doors_view(pending@),
                row: row as int,
            }) == Ok::<ScanState, MapError>(ScanState {
                rows: m@,
                pending: doors_view(pending@),
                row: row as int,
            }));
            assert(parse_map_result(lv) == Ok::<Seq<Seq<TileModel>>, MapError>(m@));
        }
        Ok(m)
    } else {
        proof {
            assert(doors_view(pending@).len() > 0);
            assert(parse_map_result(lv) == Err::<Seq<Seq<TileModel>>, MapError>(
                MapError::UnusedDoorExits,
            ));
        }
        Err(MapError::UnusedDoorExits)
    }
}

// ---------------------------------------------------------------
// Extracting tagged tiles
// ---------------------------------------------------------------

/// World-space centre of a tile.
pub open spec fn tile_pos_of(t: TileModel) -> TilePos {
    TilePos {
        x: (t.col * TILE_UNITS as int) as i32,
        y: (-(t.row * TILE_UNITS as int)) as i32,
    }
}

/// Positions of the collider tiles of one row, from column `j` on.
pub open spec fn row_colliders(r: Seq<TileModel>, j: int) -> Seq<TilePos>
    decreases r.len() - j,
{
    if j < 0 || j >= r.len() {
        seq![]
    } else if is_collider(kind_of_glyph(r[j].glyph)) {
        seq![tile_pos_of(r[j])] + row_colliders(r, j + 1)
    } else {
        row_colliders(r, j + 1)
    }
}

/// Positions of the collider tiles of a grid, from row `i` on, in scan
/// order.
pub open spec fn map_colliders(rows: Seq<Seq<TileModel>>, i: int) -> Seq<TilePos>
    decreases rows.len() - i,
{
    if i < 0 || i >= rows.len() {
        seq![]
    } else {
        row_colliders(rows[i], 0) + map_colliders(rows, i + 1)
    }
}

/// Positions of the encounter-grass tiles of one row, from column `j`
/// on.
pub open spec fn row_grass(r: Seq<TileModel>, j: int) -> Seq<TilePos>
    decreases r.len() - j,
{
    if j < 0 || j >= r.len() {
        seq![]
    } else if kind_of_glyph(r[j].glyph) is Grass {
        seq![tile_pos_of(r[j])] + row_grass(r, j + 1)
    } else {
        row_grass(r, j + 1)
    }
}

/// Positions of the encounter-grass tiles of a grid, from row `i` on.
pub open spec fn map_grass(rows: Seq<Seq<TileModel>>, i: int) -> Seq<TilePos>
    decreases rows.len() - i,
{
    if i < 0 || i >= rows.len() {
        seq![]
    } else {
        row_grass(rows[i], 0) + map_grass(rows, i + 1)
    }
}

/// A door tile's place in the world together with its destination.
#[derive(Debug)]
pub struct DoorSpot {
    pub pos: TilePos,
    pub door: Door,
}

/// Ghost model of a placed door.
pub struct DoorSpotModel {
    pub pos: TilePos,
    pub door: DoorModel,
}

impl View for DoorSpot {
    type V = DoorSpotModel;

    open spec fn view(&self) -> DoorSpotModel {
        DoorSpotModel { pos: self.pos, door: self.door@ }
    }
}

/// The placed doors of one row, from column `j` on.
pub open spec fn row_doors(r: Seq<TileModel>, j: int) -> Seq<DoorSpotModel>
    decreases r.len() - j,
{
    if j < 0 || j >= r.len() {
        seq![]
    } else if r[j].door is Some {
        seq![DoorSpotModel { pos: tile_pos_of(r[j]), door: r[j].door->0 }] + row_doors(r, j + 1)
    } else {
        row_doors(r, j + 1)
    }
}

/// The placed doors of a grid, from row `i` on, in scan order.
pub open spec fn map_doors(rows: Seq<Seq<TileModel>>, i: int) -> Seq<DoorSpotModel>
    decreases rows.len() - i,
{
    if i < 0 || i >= rows.len() {
        seq![]
    } else {
        row_doors(rows[i], 0) + map_doors(rows, i + 1)
    }
}

impl TileMap {
    /// World positions of every collider tile, in scan order.
    #[verifier::loop_isolation(false)]
    pub fn collider_tiles(&self) -> (r: Vec<TilePos>)
        requires
            self.wf(),
        ensures
            r@ == map_colliders(self@, 0),
    {
        let mut r: Vec<TilePos> = Vec::new();
        let mut i: usize = 0;
        while i < self.rows.len()
            invariant
                0 <= i <= self@.len(),
                r@ + map_colliders(self@, i as int) == map_colliders(self@, 0),
            decreases self@.len() - i,
        {
            let rowv: &Vec<Tile> = &self.rows[i];
            let mut j: usize = 0;
            while j < rowv.len()
                invariant
                    0 <= j <= self@[i as int].len(),
                    r@ + row_colliders(self@[i as int], j as int) + map_colliders(
                        self@,
                        i as int + 1,
                    ) == map_colliders(self@, 0),
                decreases self@[i as int].len() - j,
            {
                let t = &rowv[j];
                proof {
                    assert(t@ == self@[i as int][j as int]);
                }
                let k = t.kind();
                if matches!(k, TileKind::Wall | TileKind::Water) {
                    let p = t.world_pos();
                    proof {
                        assert(p == tile_pos_of(self@[i as int][j as int]));
                        assert(row_colliders(self@[i as int], j as int) == seq![p]
                            + row_colliders(self@[i as int], j as int + 1));
                        assert((r@.push(p)) + row_colliders(self@[i as int], j as int + 1)
                            + map_colliders(self@, i as int + 1) =~= r@ + row_colliders(
                            self@[i as int],
                            j as int,
                        ) + map_colliders(self@, i as int + 1));
                    }
                    r.push(p);
                }
                j = j + 1;
            }
            i = i + 1;
        }
        r
    }

    /// World positions of every encounter-grass tile, in scan order.
    #[verifier::loop_isolation(false)]
    pub fn grass_tiles(&self) -> (r: Vec<TilePos>)
        requires
            self.wf(),
        ensures
            r@ == map_grass(self@, 0),
    {
        let mut r: Vec<TilePos> = Vec::new();
        let mut i: usize = 0;
        while i < self.rows.len()
            invariant
                0 <= i <= self@.len(),
                r@ + map_grass(self@, i as int) == map_grass(self@, 0),
            decreases self@.len() - i,
        {
            let rowv: &Vec<Tile> = &self.rows[i];
            let mut j: usize = 0;
            while j < rowv.len()
                invariant
                    0 <= j <= self@[i as int].len(),
                    r@ + row_grass(self@[i as int], j as int) + map_grass(self@, i as int + 1)
                        == map_grass(self@, 0),
                decreases self@[i as int].len() - j,
            {
                let t = &rowv[j];
                proof {
                    assert(t@ == self@[i as int][j as int]);
                }
                let k = t.kind();
                if matches!(k, TileKind::Grass) {
                    let p = t.world_pos();
                    proof {
                        assert(p == tile_pos_of(self@[i as int][j as int]));
                        assert((r@.push(p)) + row_grass(self@[i as int], j as int + 1) + map_grass(
                            self@,
                            i as int + 1,
                        ) =~= r@ + row_grass(self@[i as int], j as int) + map_grass(
                            self@,
                            i as int + 1,
                        ));
                    }
                    r.push(p);
                }
                j = j + 1;
            }
            i = i + 1;
        }
        r
    }

    /// Every placed door with its world position, in scan order.
    #[verifier::loop_isolation(false)]
    pub fn door_tiles(&self) -> (r: Vec<DoorSpot>)
        requires
            self.wf(),
        ensures
            r@.map_values(|d: DoorSpot| d@) == map_doors(self@, 0),
    {
        let ghost dv = |d: DoorSpot| d@;
        let mut r: Vec<DoorSpot> = Vec::new();
        proof {
            assert(r@.map_values(dv) =~= Seq::<DoorSpotModel>::empty());
        }
        let mut i: usize = 0;
        while i < self.rows.len()
            invariant
                0 <= i <= self@.len(),
                r@.map_values(dv) + map_doors(self@, i as int) == map_doors(self@, 0),
            decreases self@.len() - i,
        {
            let rowv: &Vec<Tile> = &self.rows[i];
            let mut j: usize = 0;
            while j < rowv.len()
                invariant
                    0 <= j <= self@[i as int].len(),
                    r@.map_values(dv) + row_doors(self@[i as int], j as int) + map_doors(
                        self@,
                        i as int + 1,
                    ) == map_doors(self@, 0),
                decreases self@[i as int].len() - j,
            {
                let t = &rowv[j];
                proof {
                    assert(t@ == self@[i as int][j as int]);
                }
                match &t.door {
                    Some(d) => {
                        let spot = DoorSpot { pos: t.world_pos(), door: d.duplicate() };
                        proof {
                            assert(spot@ == DoorSpotModel {
                                pos: tile_pos_of(self@[i as int][j as int]),
                                door: self@[i as int][j as int].door->0,
                            });
                            assert(row_doors(self@[i as int], j as int) == seq![spot@]
                                + row_doors(self@[i as int], j as int + 1));
                            assert((r@.push(spot)).map_values(dv) + row_doors(
                                self@[i as int],
                                j as int + 1,
                            ) + map_doors(self@, i as int + 1) =~= r@.map_values(dv) + row_doors(
                                self@[i as int],
                                j as int,
                            ) + map_doors(self@, i as int + 1));
                        }
                        r.push(spot);
                    },
                    None => {},
                }
                j = j + 1;
            }
            i = i + 1;
        }
        r
    }
}

// ---------------------------------------------------------------
// Serialization and the layout round trip
// ---------------------------------------------------------------

/// The glyphs of a row of tiles.
pub open spec fn row_glyphs(r: Seq<TileModel>) -> Seq<u8> {
    r.map_values(|t: TileModel| t.glyph)
}

/// The character grid a loaded map prints back to, one line per grid
/// row.
pub open spec fn rendered(rows: Seq<Seq<TileModel>>) -> Seq<Seq<u8>> {
    rows.map_values(|r: Seq<TileModel>| row_glyphs(r))
}

/// The input lines that carry the grid: every line except the pure
/// door-declaration lines, from index `i` on.
pub open spec fn grid_lines(lines: Seq<Seq<u8>>, i: int) -> Seq<Seq<u8>>
    decreases lines.len() - i,
{
    if i < 0 || i >= lines.len() {
        seq![]
    } else if is_comment_row(lines[i]) {
        grid_lines(lines, i + 1)
    } else {
        seq![lines[i]] + grid_lines(lines, i + 1)
    }
}

/// Whether a line confines `/` to column zero, the convention map
/// files follow in practice.
pub open spec fn slash_only_at_start(l: Seq<u8>) -> bool {
    forall|j: int| 1 <= j < l.len() ==> #[trigger] l[j] != SLASH
}

/// Print a loaded map back to its character grid.
#[verifier::loop_isolation(false)]
pub fn render_grid(map: &TileMap) -> (out: Vec<Vec<u8>>)
    ensures
        lines_view(out@) == rendered(map@),
{
    let mut out: Vec<Vec<u8>> = Vec::new();
    proof {
        assert(lines_view(out@) =~= rendered(map@).take(0));
    }
    let mut i: usize = 0;
    while i < map.rows.len()
        invariant
            0 <= i <= map@.len(),
            lines_view(out@) == rendered(map@).take(i as int),
        decreases map@.len() - i,
    {
        let rowv: &Vec<Tile> = &map.rows[i];
        let mut line: Vec<u8> = Vec::new();
        let mut j: usize = 0;
        while j < rowv.len()
            invariant
                0 <= j <= map@[i as int].len(),
                line@ == row_glyphs(map@[i as int]).take(j as int),
            decreases map@[i as int].len() - j,
        {
            line.push(rowv[j].glyph);
            proof {
                assert(line@ =~= row_glyphs(map@[i as int]).take(j as int + 1));
            }
            j = j + 1;
        }
        proof {
            assert(line@ =~= row_glyphs(map@[i as int]));
        }
        out.push(line);
        proof {
            assert(lines_view(out@) =~= rendered(map@).take(i as int + 1));
        }
        i = i + 1;
    }
    proof {
        assert(rendered(map@).take(map@.len() as int) =~= rendered(map@));
    }
    out
}

/// A successful row scan appends one tile per byte, in order, each
/// keeping its glyph, and consumes one pending door per `D`.
proof fn lemma_scan_row_glyphs(
    p: Seq<u8>,
    j: int,
    row: int,
    acc: Seq<TileModel>,
    pending: Seq<DoorModel>,
)
    requires
        0 <= j <= p.len(),
        scan_row(p, j, row, acc, pending) is Ok,
    ensures
        row_glyphs(scan_row(p, j, row, acc, pending)->Ok_0.0) == row_glyphs(acc) + p.skip(j),
    decreases p.len() - j,
{
    if j >= p.len() {
        assert(p.skip(j) =~= Seq::<u8>::empty());
        assert(row_glyphs(acc) + p.skip(j) =~= row_glyphs(acc));
    } else {
        let t = if p[j] == DOOR_GLYPH {
            TileModel { glyph: p[j], col: j, row, door: Some(pending[0]) }
        } else {
            TileModel { glyph: p[j], col: j, row, door: None }
        };
        let pending1 = if p[j] == DOOR_GLYPH {
            pending.skip(1)
        } else {
            pending
        };
        lemma_scan_row_glyphs(p, j + 1, row, acc.push(t), pending1);
        assert(row_glyphs(acc.push(t)) =~= row_glyphs(acc).push(p[j]));
        assert(row_glyphs(acc).push(p[j]) + p.skip(j + 1) =~= row_glyphs(acc) + p.skip(j));
    }
}

/// Under the column-zero convention, a successful scan appends to the
/// grid exactly the glyphs of the non-declaration lines.
proof fn lemma_scan_from_rendered(lines: Seq<Seq<u8>>, i: int, st: ScanState)
    requires
        0 <= i <= lines.len(),
        forall|n: int| 0 <= n < lines.len() ==> slash_only_at_start(#[trigger] lines[n]),
        scan_from(lines, i, st) is Ok,
    ensures
        rendered(scan_from(lines, i, st)->Ok_0.rows) == rendered(st.rows) + grid_lines(lines, i),
    decreases lines.len() - i,
{
    if i >= lines.len() {
        assert(rendered(st.rows) + grid_lines(lines, i) =~= rendered(st.rows));
    } else {
        let l = lines[i];
        let p = tile_prefix(l);
        let st1 = scan_line(st, l)->Ok_0;
        lemma_prefix_len_until(l, SLASH);
        if is_comment_row(l) {
            assert(tile_prefix_len(l) == 0);
            assert(p =~= Seq::<u8>::empty());
            assert(scan_row(p, 0, st.row, seq![], st.pending) == Ok::<
                (Seq<TileModel>, Seq<DoorModel>),
                MapError,
            >((seq![], st.pending)));
            assert(st1.rows == st.rows);
        } else {
            if l.len() > 0 {
                assert(l[0] != SLASH);
            }
            assert(forall|k: int| 0 <= k < l.len() ==> #[trigger] l[k] != SLASH);
            lemma_prefix_len_until_is(l, SLASH, l.len() as int);
            assert(p =~= l);
            assert(!has_comment(l));
            let tiles = scan_row(p, 0, st.row, seq![], st.pending)->Ok_0.0;
            lemma_scan_row_glyphs(p, 0, st.row, seq![], st.pending);
            assert(row_glyphs(Seq::<TileModel>::empty()) =~= Seq::<u8>::empty());
            assert(p.skip(0) =~= p);
            assert(row_glyphs(tiles) =~= l);
            assert(st1.rows == st.rows.push(tiles));
            assert(rendered(st.rows.push(tiles)) =~= rendered(st.rows).push(l));
        }
        lemma_scan_from_rendered(lines, i + 1, st1);
        if is_comment_row(l) {
            assert(grid_lines(lines, i) == grid_lines(lines, i + 1));
        } else {
            assert(rendered(st.rows).push(l) + grid_lines(lines, i + 1) =~= rendered(st.rows) + (
            seq![l] + grid_lines(lines, i + 1)));
        }
    }
}

/// Layout round trip: when `/` appears only in column zero, printing a
/// successfully loaded map reproduces exactly the non-declaration
/// lines of its file.
pub proof fn lemma_render_round_trip(lines: Seq<Seq<u8>>)
    requires
        forall|n: int| 0 <= n < lines.len() ==> slash_only_at_start(#[trigger] lines[n]),
        parse_map_result(lines) is Ok,
    ensures
        rendered(parse_map_result(lines)->Ok_0) == grid_lines(lines, 0),
{
    lemma_scan_from_rendered(lines, 0, init_scan_state());
    let rows = scan_from(lines, 0, init_scan_state())->Ok_0.rows;
    assert(rendered(init_scan_state().rows) =~= Seq::<Seq<u8>>::empty());
    assert(Seq::<Seq<u8>>::empty() + grid_lines(lines, 0) =~= grid_lines(lines, 0));
}

// ---------------------------------------------------------------
// Door-count balance
// ---------------------------------------------------------------

/// Number of `D` bytes of `p` from index `j` on.
pub open spec fn door_glyphs_in(p: Seq<u8>, j: int) -> int
    decreases p.len() - j,
{
    if j < 0 || j >= p.len() {
        0
    } else {
        (if p[j] == DOOR_GLYPH {
            1int
        } else {
            0int
        }) + door_glyphs_in(p, j + 1)
    }
}

/// Number of `D` tiles the lines from `i` on declare in their tile
/// portions.
pub open spec fn door_glyph_count(lines: Seq<Seq<u8>>, i: int) -> int
    decreases lines.len() - i,
{
    if i < 0 || i >= lines.len() {
        0
    } else {
        door_glyphs_in(tile_prefix(lines[i]), 0) + door_glyph_count(lines, i + 1)
    }
}

/// Number of door declarations the lines from `i` on carry.
pub open spec fn declaration_count(lines: Seq<Seq<u8>>, i: int) -> int
    decreases lines.len() - i,
{
    if i < 0 || i >= lines.len() {
        0
    } else {
        (if has_comment(lines[i]) {
            1int
        } else {
            0int
        }) + declaration_count(lines, i + 1)
    }
}

/// A successful row scan consumes exactly one pending door per `D`
/// byte.
proof fn lemma_scan_row_doors(
    p: Seq<u8>,
    j: int,
    row: int,
    acc: Seq<TileModel>,
    pending: Seq<DoorModel>,
)
    requires
        0 <= j <= p.len(),
        scan_row(p, j, row, acc, pending) is Ok,
    ensures
        door_glyphs_in(p, j) <= pending.len(),
        scan_row(p, j, row, acc, pending)->Ok_0.1.len() == pending.len() - door_glyphs_in(p, j),
    decreases p.len() - j,
{
    if j < p.len() {
        if p[j] == DOOR_GLYPH {
            lemma_scan_row_doors(
                p,
                j + 1,
                row,
                acc.push(TileModel { glyph: p[j], col: j, row, door: Some(pending[0]) }),
                pending.skip(1),
            );
        } else {
            lemma_scan_row_doors(
                p,
                j + 1,
                row,
                acc.push(TileModel { glyph: p[j], col: j, row, door: None }),
                pending,
            );
        }
    }
}

/// Over a successful scan, the pending-door queue grows by one per
/// declaration and shrinks by one per `D` tile.
proof fn lemma_scan_from_doors(lines: Seq<Seq<u8>>, i: int, st: ScanState)
    requires
        0 <= i <= lines.len(),
        scan_from(lines, i, st) is Ok,
    ensures
        scan_from(lines, i, st)->Ok_0.pending.len() == st.pending.len() + declaration_count(
            lines,
            i,
        ) - door_glyph_count(lines, i),
    decreases lines.len() - i,
{
    if i < lines.len() {
        let l = lines[i];
        let p = tile_prefix(l);
        lemma_scan_row_doors(p, 0, st.row, seq![], st.pending);
        let st1 = scan_line(st, l)->Ok_0;
        lemma_scan_from_doors(lines, i + 1, st1);
    }
}

/// Door-count balance: a map loads only when the number of `D` tiles
/// equals the number of door declarations, and a mismatch always
/// fails.
pub proof fn lemma_door_count_balance(lines: Seq<Seq<u8>>)
    ensures
        parse_map_result(lines) is Ok ==> door_glyph_count(lines, 0) == declaration_count(
            lines,
            0,
        ),
        door_glyph_count(lines, 0) != declaration_count(lines, 0) ==> parse_map_result(lines)
            is Err,
{
    if scan_from(lines, 0, init_scan_state()) is Ok {
        lemma_scan_from_doors(lines, 0, init_scan_state());
    }
}

/// Apply a door transition to the player: reposition them at the
/// destination grid cell of the new map. Reloading the map itself is
/// the caller's work.
pub fn load_exit(player: &mut Player, door: &Door)
    requires
        -100_000 <= door.new_x <= 100_000,
        -100_000 <= door.new_y <= 100_000,
    ensures
        final(player).x == TILE_UNITS * door.new_x,
        final(player).y == -(TILE_UNITS * door.new_y),
        *final(player) == (Player { x: final(player).x, y: final(player).y, ..*old(player) }),
{
    player.x = TILE_UNITS * door.new_x;
    player.y = -(TILE_UNITS * door.new_y);
}

} // verus!

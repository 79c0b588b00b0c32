//! The snapshot codec: a deterministic, versioned binary serialization
//! of one tick's world state for replay and remote rendering.
//!
//! A snapshot is laid out as a flat sequence of 64-bit words, each
//! written little-endian: a version word, the tick, the status (tag and
//! team), then the ships, bullets and overlay lines, each as a count
//! word followed by fixed-width entries. Floating-point quantities are
//! carried as their IEEE 754 bit patterns and never interpreted here.

use vstd::prelude::*;

use vstd::bytes::{
    lemma_auto_spec_u64_to_from_le_bytes, spec_u64_from_le_bytes, spec_u64_to_le_bytes,
    u64_from_le_bytes, u64_to_le_bytes,
};
use vstd::slice::slice_subrange;

use crate::ship::ShipClass;
use crate::victory::Status;

verus! {

/// Version word at the head of every snapshot.
pub const SNAPSHOT_VERSION: u64 = 1;

/// One ship in a snapshot. Kinematic quantities are IEEE 754 bit
/// patterns.
#[derive(Clone, Copy, PartialEq, Eq, Structural, Debug)]
pub struct ShipEntry {
    pub handle: u64,
    pub team: i32,
    pub class: ShipClass,
    pub position_x_bits: u64,
    pub position_y_bits: u64,
    pub velocity_x_bits: u64,
    pub velocity_y_bits: u64,
    pub heading_bits: u64,
    pub angular_velocity_bits: u64,
    pub health_bits: u64,
}

/// One bullet in a snapshot.
#[derive(Clone, Copy, PartialEq, Eq, Structural, Debug)]
pub struct BulletEntry {
    pub position_x_bits: u64,
    pub position_y_bits: u64,
    pub velocity_x_bits: u64,
    pub velocity_y_bits: u64,
    pub mass_bits: u64,
    pub team: i32,
    pub ttl_bits: u64,
}

/// One overlay line in a snapshot.
#[derive(Clone, Copy, PartialEq, Eq, Structural, Debug)]
pub struct LineEntry {
    pub start_x_bits: u64,
    pub start_y_bits: u64,
    pub end_x_bits: u64,
    pub end_y_bits: u64,
    pub color_r_bits: u64,
    pub color_g_bits: u64,
    pub color_b_bits: u64,
    pub color_a_bits: u64,
}

/// One tick's world state as handed to replay and rendering consumers.
#[derive(Clone, PartialEq, Debug)]
pub struct Snapshot {
    pub tick: u32,
    pub status: Status,
    pub ships: Vec<ShipEntry>,
    pub bullets: Vec<BulletEntry>,
    pub lines: Vec<LineEntry>,
}

/// The mathematical shape of a snapshot.
pub struct SnapshotView {
    pub tick: u32,
    pub status: Status,
    pub ships: Seq<ShipEntry>,
    pub bullets: Seq<BulletEntry>,
    pub lines: Seq<LineEntry>,
}

impl View for Snapshot {
    type V = SnapshotView;

    open spec fn view(&self) -> SnapshotView {
        SnapshotView {
            tick: self.tick,
            status: self.status,
            ships: self.ships@,
            bullets: self.bullets@,
            lines: self.lines@,
        }
    }
}

// ---------------------------------------------------------------------
// Field-level codings: teams, classes, status.
// ---------------------------------------------------------------------

/// A team number shifted into an unsigned word.
pub open spec fn team_bits(t: i32) -> u64 {
    (t + 0x8000_0000) as u64
}

/// The team number a word stands for.
pub open spec fn team_of_bits(w: u64) -> i32
    recommends
        w < 0x1_0000_0000,
{
    (w - 0x8000_0000) as i32
}

/// Shifting a team into a word keeps it below 2^32 and loses nothing.
pub proof fn lemma_team_bits_round_trip(t: i32)
    ensures
        team_bits(t) < 0x1_0000_0000,
        team_of_bits(team_bits(t)) == t,
{
}

/// The tag word of a ship class.
pub open spec fn class_tag(c: ShipClass) -> u64 {
    match c {
        ShipClass::Fighter => 0,
        ShipClass::Frigate => 1,
        ShipClass::Cruiser => 2,
        ShipClass::Missile => 3,
        ShipClass::Torpedo => 4,
        ShipClass::Target => 5,
        ShipClass::Asteroid => 6,
    }
}

/// The ship class a tag word stands for.
pub open spec fn class_of_tag(w: u64) -> ShipClass
    recommends
        w < 7,
{
    if w == 0 {
        ShipClass::Fighter
    } else if w == 1 {
        ShipClass::Frigate
    } else if w == 2 {
        ShipClass::Cruiser
    } else if w == 3 {
        ShipClass::Missile
    } else if w == 4 {
        ShipClass::Torpedo
    } else if w == 5 {
        ShipClass::Target
    } else {
        ShipClass::Asteroid
    }
}

/// The status words: a tag and a team word (the team word carries team 0
/// unless the tag is a victory).
pub open spec fn status_words(s: Status) -> Seq<u64> {
    match s {
        Status::Running => seq![0u64, team_bits(0)],
        Status::Victory { team } => seq![1u64, team_bits(team)],
        Status::Failed => seq![2u64, team_bits(0)],
        Status::Draw => seq![3u64, team_bits(0)],
    }
}

/// Whether a tag word and team word stand for a status.
pub open spec fn status_words_valid(tag: u64, tw: u64) -> bool {
    if tag == 1 {
        tw < 0x1_0000_0000
    } else {
        (tag == 0 || tag == 2 || tag == 3) && tw == team_bits(0)
    }
}

/// The status a tag word and team word stand for.
pub open spec fn status_of_words(tag: u64, tw: u64) -> Status
    recommends
        status_words_valid(tag, tw),
{
    if tag == 1 {
        Status::Victory { team: team_of_bits(tw) }
    } else if tag == 2 {
        Status::Failed
    } else if tag == 3 {
        Status::Draw
    } else {
        Status::Running
    }
}

// ---------------------------------------------------------------------
// Entry-level codings.
// ---------------------------------------------------------------------

/// The ten words of one ship entry.
pub open spec fn ship_words(e: ShipEntry) -> Seq<u64> {
    seq![
        e.handle,
        team_bits(e.team),
        class_tag(e.class),
        e.position_x_bits,
        e.position_y_bits,
        e.velocity_x_bits,
        e.velocity_y_bits,
        e.heading_bits,
        e.angular_velocity_bits,
        e.health_bits,
    ]
}

/// The seven words of one bullet entry.
pub open spec fn bullet_words(e: BulletEntry) -> Seq<u64> {
    seq![
        e.position_x_bits,
        e.position_y_bits,
        e.velocity_x_bits,
        e.velocity_y_bits,
        e.mass_bits,
        team_bits(e.team),
        e.ttl_bits,
    ]
}

/// The eight words of one line entry.
pub open spec fn line_words(e: LineEntry) -> Seq<u64> {
    seq![
        e.start_x_bits,
        e.start_y_bits,
        e.end_x_bits,
        e.end_y_bits,
        e.color_r_bits,
        e.color_g_bits,
        e.color_b_bits,
        e.color_a_bits,
    ]
}

/// The ship entry read at a word offset.
pub open spec fn ship_entry_at(w: Seq<u64>, off: int) -> ShipEntry {
    ShipEntry {
        handle: w[off],
        team: team_of_bits(w[off + 1]),
        class: class_of_tag(w[off + 2]),
        position_x_bits: w[off + 3],
        position_y_bits: w[off + 4],
        velocity_x_bits: w[off + 5],
        velocity_y_bits: w[off + 6],
        heading_bits: w[off + 7],
        angular_velocity_bits: w[off + 8],
        health_bits: w[off + 9],
    }
}

/// The bullet entry read at a word offset.
pub open spec fn bullet_entry_at(w: Seq<u64>, off: int) -> BulletEntry {
    BulletEntry {
        position_x_bits: w[off],
        position_y_bits: w[off + 1],
        velocity_x_bits: w[off + 2],
        velocity_y_bits: w[off + 3],
        mass_bits: w[off + 4],
        team: team_of_bits(w[off + 5]),
        ttl_bits: w[off + 6],
    }
}

/// The line entry read at a word offset.
pub open spec fn line_entry_at(w: Seq<u64>, off: int) -> LineEntry {
    LineEntry {
        start_x_bits: w[off],
        start_y_bits: w[off + 1],
        end_x_bits: w[off + 2],
        end_y_bits: w[off + 3],
        color_r_bits: w[off + 4],
        color_g_bits: w[off + 5],
        color_b_bits: w[off + 6],
        color_a_bits: w[off + 7],
    }
}

/// The words of a ship roster, in order.
pub open spec fn ships_words(s: Seq<ShipEntry>) -> Seq<u64>
    decreases s.len(),
{
    if s.len() == 0 {
        Seq::empty()
    } else {
        ships_words(s.drop_last()) + ship_words(s.last())
    }
}

/// The words of a bullet roster, in order.
pub open spec fn bullets_words(s: Seq<BulletEntry>) -> Seq<u64>
    decreases s.len(),
{
    if s.len() == 0 {
        Seq::empty()
    } else {
        bullets_words(s.drop_last()) + bullet_words(s.last())
    }
}

/// The words of a line roster, in order.
pub open spec fn lines_words(s: Seq<LineEntry>) -> Seq<u64>
    decreases s.len(),
{
    if s.len() == 0 {
        Seq::empty()
    } else {
        lines_words(s.drop_last()) + line_words(s.last())
    }
}

pub proof fn lemma_ships_words_len(s: Seq<ShipEntry>)
    ensures
        ships_words(s).len() == 10 * s.len(),
    decreases s.len(),
{
    if s.len() > 0 {
        lemma_ships_words_len(s.drop_last());
    }
}

pub proof fn lemma_bullets_words_len(s: Seq<BulletEntry>)
    ensures
        bullets_words(s).len() == 7 * s.len(),
    decreases s.len(),
{
    if s.len() > 0 {
        lemma_bullets_words_len(s.drop_last());
    }
}

pub proof fn lemma_lines_words_len(s: Seq<LineEntry>)
    ensures
        lines_words(s).len() == 8 * s.len(),
    decreases s.len(),
{
    if s.len() > 0 {
        lemma_lines_words_len(s.drop_last());
    }
}

/// The words of entry `i` sit at word offset `10 * i` of the roster.
pub proof fn lemma_ships_words_at(s: Seq<ShipEntry>, i: int)
    requires
        0 <= i < s.len(),
    ensures
        ships_words(s).subrange(10 * i, 10 * i + 10) == ship_words(s[i]),
    decreases s.len(),
{
    lemma_ships_words_len(s);
    lemma_ships_words_len(s.drop_last());
    if i == s.len() - 1 {
        assert(ships_words(s).subrange(10 * i, 10 * i + 10) =~= ship_words(s[i]));
    } else {
        lemma_ships_words_at(s.drop_last(), i);
        assert(ships_words(s).subrange(10 * i, 10 * i + 10) =~= ships_words(
            s.drop_last(),
        ).subrange(10 * i, 10 * i + 10));
    }
}

/// The words of entry `i` sit at word offset `7 * i` of the roster.
pub proof fn lemma_bullets_words_at(s: Seq<BulletEntry>, i: int)
    requires
        0 <= i < s.len(),
    ensures
        bullets_words(s).subrange(7 * i, 7 * i + 7) == bullet_words(s[i]),
    decreases s.len(),
{
    lemma_bullets_words_len(s);
    lemma_bullets_words_len(s.drop_last());
    if i == s.len() - 1 {
        assert(bullets_words(s).subrange(7 * i, 7 * i + 7) =~= bullet_words(s[i]));
    } else {
        lemma_bullets_words_at(s.drop_last(), i);
        assert(bullets_words(s).subrange(7 * i, 7 * i + 7) =~= bullets_words(
            s.drop_last(),
        ).subrange(7 * i, 7 * i + 7));
    }
}

/// The words of entry `i` sit at word offset `8 * i` of the roster.
pub proof fn lemma_lines_words_at(s: Seq<LineEntry>, i: int)
    requires
        0 <= i < s.len(),
    ensures
        lines_words(s).subrange(8 * i, 8 * i + 8) == line_words(s[i]),
    decreases s.len(),
{
    lemma_lines_words_len(s);
    lemma_lines_words_len(s.drop_last());
    if i == s.len() - 1 {
        assert(lines_words(s).subrange(8 * i, 8 * i + 8) =~= line_words(s[i]));
    } else {
        lemma_lines_words_at(s.drop_last(), i);
        assert(lines_words(s).subrange(8 * i, 8 * i + 8) =~= lines_words(s.drop_last()).subrange(
            8 * i,
            8 * i + 8,
        ));
    }
}

// ---------------------------------------------------------------------
// The word image of a whole snapshot, and its parser.
// ---------------------------------------------------------------------

/// The word image of a snapshot: version, tick, status, then each
/// roster behind its count word.
pub open spec fn snapshot_words(v: SnapshotView) -> Seq<u64> {
    seq![SNAPSHOT_VERSION, v.tick as u64] + status_words(v.status) + seq![v.ships.len() as u64]
        + ships_words(v.ships) + seq![v.bullets.len() as u64] + bullets_words(v.bullets) + seq![
        v.lines.len() as u64,
    ] + lines_words(v.lines)
}

/// Whether every ship entry in the word image carries a team word below
/// 2^32 and a class tag below 7.
pub open spec fn ship_region_valid(w: Seq<u64>, ns: int) -> bool {
    forall|i: int|
        #![trigger w[5 + 10 * i + 1]]
        #![trigger w[5 + 10 * i + 2]]
        0 <= i < ns ==> (w[5 + 10 * i + 1] < 0x1_0000_0000 && w[5 + 10 * i + 2] < 7)
}

/// Whether every bullet entry in the word image carries a team word
/// below 2^32.
pub open spec fn bullet_region_valid(w: Seq<u64>, boff: int, nb: int) -> bool {
    forall|i: int| 0 <= i < nb ==> #[trigger] w[boff + 7 * i + 5] < 0x1_0000_0000
}

/// Parse a word image back into a snapshot. Yields nothing unless the
/// image is exactly one well-formed snapshot.
pub open spec fn parse_snapshot_words(w: Seq<u64>) -> Option<SnapshotView> {
    if w.len() < 6 {
        Option::None
    } else if w[0] != SNAPSHOT_VERSION {
        Option::None
    } else if w[1] > u32::MAX {
        Option::None
    } else if !status_words_valid(w[2], w[3]) {
        Option::None
    } else {
        let ns = w[4] as int;
        if w.len() < 6 + 10 * ns {
            Option::None
        } else {
            let boff = 5 + 10 * ns;
            let nb = w[boff] as int;
            if w.len() < boff + 2 + 7 * nb {
                Option::None
            } else {
                let loff = boff + 1 + 7 * nb;
                let nl = w[loff] as int;
                if w.len() != loff + 1 + 8 * nl {
                    Option::None
                } else if !ship_region_valid(w, ns) {
                    Option::None
                } else if !bullet_region_valid(w, boff + 1, nb) {
                    Option::None
                } else {
                    Option::Some(
                        SnapshotView {
                            tick: w[1] as u32,
                            status: status_of_words(w[2], w[3]),
                            ships: Seq::new(ns as nat, |i: int| ship_entry_at(w, 5 + 10 * i)),
                            bullets: Seq::new(
                                nb as nat,
                                |i: int| bullet_entry_at(w, boff + 1 + 7 * i),
                            ),
                            lines: Seq::new(nl as nat, |i: int| line_entry_at(w, loff + 1 + 8 * i)),
                        },
                    )
                }
            }
        }
    }
}

/// Ship entries are recovered word for word from any image that embeds
/// their roster words at the given offset.
#[verifier::rlimit(30)]
pub proof fn lemma_ship_entries_recovered(ws: Seq<ShipEntry>, w: Seq<u64>, off: int)
    requires
        0 <= off,
        off + 10 * ws.len() <= w.len(),
        w.subrange(off, off + 10 * ws.len()) == ships_words(ws),
    ensures
        forall|i: int|
            0 <= i < ws.len() ==> #[trigger] ship_entry_at(w, off + 10 * i) == ws[i]
                && w[off + 10 * i + 1] < 0x1_0000_0000 && w[off + 10 * i + 2] < 7,
{
    lemma_ships_words_len(ws);
    assert forall|i: int| 0 <= i < ws.len() implies #[trigger] ship_entry_at(w, off + 10 * i)
        == ws[i] && w[off + 10 * i + 1] < 0x1_0000_0000 && w[off + 10 * i + 2] < 7 by {
        lemma_ships_words_at(ws, i);
        let sw = ships_words(ws).subrange(10 * i, 10 * i + 10);
        assert forall|j: int| 0 <= j < 10 implies #[trigger] w[off + 10 * i + j] == sw[j] by {
            assert(sw[j] == ships_words(ws)[10 * i + j]);
            assert(w[off + 10 * i + j] == w.subrange(off, off + 10 * ws.len())[10 * i + j]);
        }
        lemma_team_bits_round_trip(ws[i].team);
        assert(ship_entry_at(w, off + 10 * i) == ws[i]);
    }
}

/// Bullet entries are recovered word for word from any image that
/// embeds their roster words at the given offset.
#[verifier::rlimit(30)]
pub proof fn lemma_bullet_entries_recovered(ws: Seq<BulletEntry>, w: Seq<u64>, off: int)
    requires
        0 <= off,
        off + 7 * ws.len() <= w.len(),
        w.subrange(off, off + 7 * ws.len()) == bullets_words(ws),
    ensures
        forall|i: int|
            0 <= i < ws.len() ==> #[trigger] bullet_entry_at(w, off + 7 * i) == ws[i]
                && w[off + 7 * i + 5] < 0x1_0000_0000,
{
    lemma_bullets_words_len(ws);
    assert forall|i: int| 0 <= i < ws.len() implies #[trigger] bullet_entry_at(w, off + 7 * i)
        == ws[i] && w[off + 7 * i + 5] < 0x1_0000_0000 by {
        lemma_bullets_words_at(ws, i);
        let sw = bullets_words(ws).subrange(7 * i, 7 * i + 7);
        assert forall|j: int| 0 <= j < 7 implies #[trigger] w[off + 7 * i + j] == sw[j] by {
            assert(sw[j] == bullets_words(ws)[7 * i + j]);
            assert(w[off + 7 * i + j] == w.subrange(off, off + 7 * ws.len())[7 * i + j]);
        }
        lemma_team_bits_round_trip(ws[i].team);
        assert(bullet_entry_at(w, off + 7 * i) == ws[i]);
    }
}

/// Line entries are recovered word for word from any image that embeds
/// their roster words at the given offset.
#[verifier::rlimit(30)]
pub proof fn lemma_line_entries_recovered(ws: Seq<LineEntry>, w: Seq<u64>, off: int)
    requires
        0 <= off,
        off + 8 * ws.len() <= w.len(),
        w.subrange(off, off + 8 * ws.len()) == lines_words(ws),
    ensures
        forall|i: int| 0 <= i < ws.len() ==> #[trigger] line_entry_at(w, off + 8 * i) == ws[i],
{
    lemma_lines_words_len(ws);
    assert forall|i: int| 0 <= i < ws.len() implies #[trigger] line_entry_at(w, off + 8 * i)
        == ws[i] by {
        lemma_lines_words_at(ws, i);
        let sw = lines_words(ws).subrange(8 * i, 8 * i + 8);
        assert forall|j: int| 0 <= j < 8 implies #[trigger] w[off + 8 * i + j] == sw[j] by {
            assert(sw[j] == lines_words(ws)[8 * i + j]);
            assert(w[off + 8 * i + j] == w.subrange(off, off + 8 * ws.len())[8 * i + j]);
        }
        assert(line_entry_at(w, off + 8 * i) == ws[i]);
    }
}

/// Parsing the word image of any snapshot gives that snapshot back.
#[verifier::rlimit(60)]
pub proof fn lemma_parse_snapshot_words(v: SnapshotView)
    requires
        v.ships.len() <= u64::MAX,
        v.bullets.len() <= u64::MAX,
        v.lines.len() <= u64::MAX,
    ensures
        parse_snapshot_words(snapshot_words(v)) == Option::Some(v),
{
    let w = snapshot_words(v);
    let ns = v.ships.len() as int;
    let nb = v.bullets.len() as int;
    let nl = v.lines.len() as int;
    let boff = 5 + 10 * ns;
    let loff = boff + 1 + 7 * nb;
    lemma_ships_words_len(v.ships);
    lemma_bullets_words_len(v.bullets);
    lemma_lines_words_len(v.lines);
    assert(w.len() == 6 + 10 * ns + 1 + 7 * nb + 8 * nl);
    assert(w[0] == SNAPSHOT_VERSION);
    assert(w[1] == v.tick as u64);
    assert(w[2] == status_words(v.status)[0]);
    assert(w[3] == status_words(v.status)[1]);
    assert(status_words_valid(w[2], w[3]) && status_of_words(w[2], w[3]) == v.status) by {
        match v.status {
            Status::Running => {},
            Status::Victory { team } => {
                lemma_team_bits_round_trip(team);
            },
            Status::Failed => {},
            Status::Draw => {},
        }
    }
    assert(w[4] == ns as u64);
    assert(w[boff] == nb as u64);
    assert(w[loff] == nl as u64);
    assert(w.subrange(5, 5 + 10 * ns) =~= ships_words(v.ships));
    assert(w.subrange(boff + 1, boff + 1 + 7 * nb) =~= bullets_words(v.bullets));
    assert(w.subrange(loff + 1, loff + 1 + 8 * nl) =~= lines_words(v.lines));
    lemma_ship_entries_recovered(v.ships, w, 5);
    lemma_bullet_entries_recovered(v.bullets, w, boff + 1);
    lemma_line_entries_recovered(v.lines, w, loff + 1);
    assert(ship_region_valid(w, ns)) by {
        assert forall|i: int| 0 <= i < ns implies #[trigger] w[5 + 10 * i + 1] < 0x1_0000_0000 by {
            let e = ship_entry_at(w, 5 + 10 * i);
        }
        assert forall|i: int| 0 <= i < ns implies #[trigger] w[5 + 10 * i + 2] < 7 by {
            let e = ship_entry_at(w, 5 + 10 * i);
        }
    }
    assert(bullet_region_valid(w, boff + 1, nb)) by {
        assert forall|i: int|
            0 <= i < nb implies #[trigger] w[boff + 1 + 7 * i + 5] < 0x1_0000_0000 by {
            let e = bullet_entry_at(w, boff + 1 + 7 * i);
        }
    }
    assert(Seq::new(ns as nat, |i: int| ship_entry_at(w, 5 + 10 * i)) =~= v.ships);
    assert(Seq::new(nb as nat, |i: int| bullet_entry_at(w, boff + 1 + 7 * i)) =~= v.bullets);
    assert(Seq::new(nl as nat, |i: int| line_entry_at(w, loff + 1 + 8 * i)) =~= v.lines);
    let parsed = parse_snapshot_words(w);
    assert(parsed matches Option::Some(p) && p.ships =~= v.ships && p.bullets =~= v.bullets
        && p.lines =~= v.lines && p.tick == v.tick && p.status == v.status);
}

// ---------------------------------------------------------------------
// Words to bytes and back.
// ---------------------------------------------------------------------

/// The little-endian bytes of a word sequence.
pub open spec fn words_bytes(w: Seq<u64>) -> Seq<u8>
    decreases w.len(),
{
    if w.len() == 0 {
        Seq::empty()
    } else {
        words_bytes(w.drop_last()) + spec_u64_to_le_bytes(w.last())
    }
}

/// The words a byte sequence stands for; nothing unless the length is a
/// whole number of words.
pub open spec fn bytes_words(b: Seq<u8>) -> Option<Seq<u64>> {
    if b.len() % 8 == 0 {
        Option::Some(
            Seq::new(
                (b.len() / 8) as nat,
                |i: int| spec_u64_from_le_bytes(b.subrange(8 * i, 8 * i + 8)),
            ),
        )
    } else {
        Option::None
    }
}

pub proof fn lemma_words_bytes_len(w: Seq<u64>)
    ensures
        words_bytes(w).len() == 8 * w.len(),
    decreases w.len(),
{
    lemma_auto_spec_u64_to_from_le_bytes();
    if w.len() > 0 {
        lemma_words_bytes_len(w.drop_last());
    }
}

/// The bytes of word `i` sit at byte offset `8 * i`.
pub proof fn lemma_words_bytes_at(w: Seq<u64>, i: int)
    requires
        0 <= i < w.len(),
    ensures
        words_bytes(w).subrange(8 * i, 8 * i + 8) == spec_u64_to_le_bytes(w[i]),
    decreases w.len(),
{
    lemma_auto_spec_u64_to_from_le_bytes();
    lemma_words_bytes_len(w);
    lemma_words_bytes_len(w.drop_last());
    if i == w.len() - 1 {
        assert(words_bytes(w).subrange(8 * i, 8 * i + 8) =~= spec_u64_to_le_bytes(w[i]));
    } else {
        lemma_words_bytes_at(w.drop_last(), i);
        assert(words_bytes(w).subrange(8 * i, 8 * i + 8) =~= words_bytes(w.drop_last()).subrange(
            8 * i,
            8 * i + 8,
        ));
    }
}

/// Reading the bytes of any word sequence gives the words back.
pub proof fn lemma_bytes_words_round_trip(w: Seq<u64>)
    ensures
        bytes_words(words_bytes(w)) == Option::Some(w),
{
    lemma_auto_spec_u64_to_from_le_bytes();
    lemma_words_bytes_len(w);
    let b = words_bytes(w);
    let w2 = Seq::new(
        (b.len() / 8) as nat,
        |i: int| spec_u64_from_le_bytes(b.subrange(8 * i, 8 * i + 8)),
    );
    assert forall|i: int| 0 <= i < w.len() implies w2[i] == w[i] by {
        lemma_words_bytes_at(w, i);
    }
    assert(w2 =~= w);
}

/// A byte sequence that reads as words is exactly the bytes of those
/// words: the word coding loses nothing in either direction.
pub proof fn lemma_bytes_words_exact(b: Seq<u8>, w: Seq<u64>)
    requires
        bytes_words(b) == Option::Some(w),
    ensures
        words_bytes(w) == b,
{
    lemma_auto_spec_u64_to_from_le_bytes();
    vstd::arithmetic::div_mod::lemma_fundamental_div_mod(b.len() as int, 8);
    lemma_words_bytes_len(w);
    assert forall|k: int| 0 <= k < b.len() implies words_bytes(w)[k] == b[k] by {
        let i = k / 8;
        vstd::arithmetic::div_mod::lemma_fundamental_div_mod(k, 8);
        vstd::arithmetic::div_mod::lemma_mod_bound(k, 8);
        assert(8 * i <= k < 8 * i + 8);
        assert(0 <= i < w.len()) by {
            vstd::arithmetic::div_mod::lemma_div_is_ordered(0, k, 8);
        }
        lemma_words_bytes_at(w, i);
        assert(w[i] == spec_u64_from_le_bytes(b.subrange(8 * i, 8 * i + 8)));
        assert(spec_u64_to_le_bytes(spec_u64_from_le_bytes(b.subrange(8 * i, 8 * i + 8)))
            == b.subrange(8 * i, 8 * i + 8));
        assert(words_bytes(w)[k] == words_bytes(w).subrange(8 * i, 8 * i + 8)[k - 8 * i]);
        assert(b[k] == b.subrange(8 * i, 8 * i + 8)[k - 8 * i]);
    }
    assert(words_bytes(w) =~= b);
}

// ---------------------------------------------------------------------
// The full byte coding and its laws.
// ---------------------------------------------------------------------

/// The serialized form of a snapshot.
pub open spec fn snapshot_bytes(v: SnapshotView) -> Seq<u8> {
    words_bytes(snapshot_words(v))
}

/// Parse serialized bytes back into a snapshot. Yields nothing unless
/// the bytes are exactly one well-formed snapshot.
pub open spec fn parse_snapshot_bytes(b: Seq<u8>) -> Option<SnapshotView> {
    match bytes_words(b) {
        Option::Some(w) => parse_snapshot_words(w),
        Option::None => Option::None,
    }
}

// ---------------------------------------------------------------------
// Executable encoding.
// ---------------------------------------------------------------------

fn team_word(t: i32) -> (r: u64)
    ensures
        r == team_bits(t),
{
    ((t as i64) + 0x8000_0000i64) as u64
}

fn team_from_word(r: u64) -> (t: i32)
    requires
        r < 0x1_0000_0000,
    ensures
        t == team_of_bits(r),
{
    ((r as i64) - 0x8000_0000i64) as i32
}

fn class_word(c: ShipClass) -> (r: u64)
    ensures
        r == class_tag(c),
{
    match c {
        ShipClass::Fighter => 0,
        ShipClass::Frigate => 1,
        ShipClass::Cruiser => 2,
        ShipClass::Missile => 3,
        ShipClass::Torpedo => 4,
        ShipClass::Target => 5,
        ShipClass::Asteroid => 6,
    }
}

fn class_from_word(r: u64) -> (c: ShipClass)
    requires
        r < 7,
    ensures
        c == class_of_tag(r),
{
    if r == 0 {
        ShipClass::Fighter
    } else if r == 1 {
        ShipClass::Frigate
    } else if r == 2 {
        ShipClass::Cruiser
    } else if r == 3 {
        ShipClass::Missile
    } else if r == 4 {
        ShipClass::Torpedo
    } else if r == 5 {
        ShipClass::Target
    } else {
        ShipClass::Asteroid
    }
}

proof fn lemma_ships_words_push(s: Seq<ShipEntry>, i: int)
    requires
        0 <= i < s.len(),
    ensures
        ships_words(s.take(i + 1)) == ships_words(s.take(i)) + ship_words(s[i]),
{
    assert(s.take(i + 1).drop_last() =~= s.take(i));
    assert(s.take(i + 1).last() == s[i]);
}

proof fn lemma_bullets_words_push(s: Seq<BulletEntry>, i: int)
    requires
        0 <= i < s.len(),
    ensures
        bullets_words(s.take(i + 1)) == bullets_words(s.take(i)) + bullet_words(s[i]),
{
    assert(s.take(i + 1).drop_last() =~= s.take(i));
    assert(s.take(i + 1).last() == s[i]);
}

proof fn lemma_lines_words_push(s: Seq<LineEntry>, i: int)
    requires
        0 <= i < s.len(),
    ensures
        lines_words(s.take(i + 1)) == lines_words(s.take(i)) + line_words(s[i]),
{
    assert(s.take(i + 1).drop_last() =~= s.take(i));
    assert(s.take(i + 1).last() == s[i]);
}

proof fn lemma_words_bytes_push(s: Seq<u64>, i: int)
    requires
        0 <= i < s.len(),
    ensures
        words_bytes(s.take(i + 1)) == words_bytes(s.take(i)) + spec_u64_to_le_bytes(s[i]),
{
    assert(s.take(i + 1).drop_last() =~= s.take(i));
    assert(s.take(i + 1).last() == s[i]);
}

fn push_ship_words(w: &mut Vec<u64>, e: &ShipEntry)
    ensures
        final(w)@ == old(w)@ + ship_words(*e),
{
    w.push(e.handle);
    w.push(team_word(e.team));
    w.push(class_word(e.class));
    w.push(e.position_x_bits);
    w.push(e.position_y_bits);
    w.push(e.velocity_x_bits);
    w.push(e.velocity_y_bits);
    w.push(e.heading_bits);
    w.push(e.angular_velocity_bits);
    w.push(e.health_bits);
    proof {
        assert(w@ =~= old(w)@ + ship_words(*e));
    }
}

fn push_bullet_words(w: &mut Vec<u64>, e: &BulletEntry)
    ensures
        final(w)@ == old(w)@ + bullet_words(*e),
{
    w.push(e.position_x_bits);
    w.push(e.position_y_bits);
    w.push(e.velocity_x_bits);
    w.push(e.velocity_y_bits);
    w.push(e.mass_bits);
    w.push(team_word(e.team));
    w.push(e.ttl_bits);
    proof {
        assert(w@ =~= old(w)@ + bullet_words(*e));
    }
}

fn push_line_words(w: &mut Vec<u64>, e: &LineEntry)
    ensures
        final(w)@ == old(w)@ + line_words(*e),
{
    w.push(e.start_x_bits);
    w.push(e.start_y_bits);
    w.push(e.end_x_bits);
    w.push(e.end_y_bits);
    w.push(e.color_r_bits);
    w.push(e.color_g_bits);
    w.push(e.color_b_bits);
    w.push(e.color_a_bits);
    proof {
        assert(w@ =~= old(w)@ + line_words(*e));
    }
}

fn snapshot_to_words(s: &Snapshot) -> (w: Vec<u64>)
    ensures
        w@ == snapshot_words(s@),
{
    let mut w: Vec<u64> = Vec::new();
    w.push(SNAPSHOT_VERSION);
    w.push(s.tick as u64);
    match s.status {
        Status::Running => {
            w.push(0);
            w.push(team_word(0));
        },
        Status::Victory { team } => {
            w.push(1);
            w.push(team_word(team));
        },
        Status::Failed => {
            w.push(2);
            w.push(team_word(0));
        },
        Status::Draw => {
            w.push(3);
            w.push(team_word(0));
        },
    }
    w.push(s.ships.len() as u64);
    let ghost h1 = seq![SNAPSHOT_VERSION, s.tick as u64] + status_words(s.status) + seq![
        s.ships@.len() as u64,
    ];
    proof {
        assert(w@ =~= h1 + ships_words(s.ships@.take(0)));
    }
    let mut i: usize = 0;
    while i < s.ships.len()
        invariant
            i <= s.ships@.len(),
            w@ == h1 + ships_words(s.ships@.take(i as int)),
        decreases s.ships@.len() - i,
    {
        proof {
            lemma_ships_words_push(s.ships@, i as int);
        }
        let e = s.ships[i];
        push_ship_words(&mut w, &e);
        proof {
            assert(w@ =~= h1 + ships_words(s.ships@.take(i + 1 as int)));
        }
        i = i + 1;
    }
    proof {
        assert(s.ships@.take(s.ships@.len() as int) =~= s.ships@);
    }
    w.push(s.bullets.len() as u64);
    let ghost h2 = h1 + ships_words(s.ships@) + seq![s.bullets@.len() as u64];
    proof {
        assert(w@ =~= h2 + bullets_words(s.bullets@.take(0)));
    }
    let mut j: usize = 0;
    while j < s.bullets.len()
        invariant
            j <= s.bullets@.len(),
            w@ == h2 + bullets_words(s.bullets@.take(j as int)),
        decreases s.bullets@.len() - j,
    {
        proof {
            lemma_bullets_words_push(s.bullets@, j as int);
        }
        let e = s.bullets[j];
        push_bullet_words(&mut w, &e);
        proof {
            assert(w@ =~= h2 + bullets_words(s.bullets@.take(j + 1 as int)));
        }
        j = j + 1;
    }
    proof {
        assert(s.bullets@.take(s.bullets@.len() as int) =~= s.bullets@);
    }
    w.push(s.lines.len() as u64);
    let ghost h3 = h2 + bullets_words(s.bullets@) + seq![s.lines@.len() as u64];
    proof {
        assert(w@ =~= h3 + lines_words(s.lines@.take(0)));
    }
    let mut k: usize = 0;
    while k < s.lines.len()
        invariant
            k <= s.lines@.len(),
            w@ == h3 + lines_words(s.lines@.take(k as int)),
        decreases s.lines@.len() - k,
    {
        proof {
            lemma_lines_words_push(s.lines@, k as int);
        }
        let e = s.lines[k];
        push_line_words(&mut w, &e);
        proof {
            assert(w@ =~= h3 + lines_words(s.lines@.take(k + 1 as int)));
        }
        k = k + 1;
    }
    proof {
        assert(s.lines@.take(s.lines@.len() as int) =~= s.lines@);
        assert(w@ =~= snapshot_words(s@));
    }
    w
}

fn words_to_bytes(w: &Vec<u64>) -> (out: Vec<u8>)
    ensures
        out@ == words_bytes(w@),
{
    let mut out: Vec<u8> = Vec::new();
    proof {
        assert(out@ =~= words_bytes(w@.take(0)));
    }
    let mut i: usize = 0;
    while i < w.len()
        invariant
            i <= w@.len(),
            out@ == words_bytes(w@.take(i as int)),
        decreases w@.len() - i,
    {
        proof {
            lemma_words_bytes_push(w@, i as int);
        }
        let mut bs = u64_to_le_bytes(w[i]);
        out.append(&mut bs);
        i = i + 1;
    }
    proof {
        assert(w@.take(w@.len() as int) =~= w@);
    }
    out
}

/// Serialize a snapshot.
pub fn encode_snapshot(s: &Snapshot) -> (out: Vec<u8>)
    ensures
        out@ == snapshot_bytes(s@),
{
    let w = snapshot_to_words(s);
    words_to_bytes(&w)
}

// ---------------------------------------------------------------------
// Executable decoding.
// ---------------------------------------------------------------------

fn words_from_bytes(b: &[u8]) -> (r: Option<Vec<u64>>)
    ensures
        r matches Some(w) ==> bytes_words(b@) == Option::Some(w@),
        r is None ==> bytes_words(b@) is None,
{
    let n: usize = b.len();
    if n % 8 != 0 {
        return None;
    }
    let nw: usize = n / 8;
    proof {
        vstd::arithmetic::div_mod::lemma_fundamental_div_mod(n as int, 8);
    }
    let ghost total: int = n as int;
    let mut w: Vec<u64> = Vec::new();
    let mut i: usize = 0;
    while i < nw
        invariant
            i <= nw,
            n == b@.len(),
            total == b@.len(),
            total == 8 * nw,
            w@.len() == i,
            forall|k: int|
                0 <= k < i ==> w@[k] == spec_u64_from_le_bytes(
                    #[trigger] b@.subrange(8 * k, 8 * k + 8),
                ),
        decreases nw - i,
    {
        assert(8 * i + 8 <= n);
        let sl = slice_subrange(b, 8 * i, 8 * i + 8);
        let x = u64_from_le_bytes(sl);
        w.push(x);
        i = i + 1;
    }
    proof {
        let ws = Seq::new(
            (b@.len() / 8) as nat,
            |k: int| spec_u64_from_le_bytes(b@.subrange(8 * k, 8 * k + 8)),
        );
        assert(w@ =~= ws);
    }
    Some(w)
}

fn parse_ship_entries(w: &Vec<u64>, ns: usize) -> (r: Option<Vec<ShipEntry>>)
    requires
        6 + 10 * (ns as int) <= w@.len(),
    ensures
        r matches Some(v) ==> v@.len() == ns && ship_region_valid(w@, ns as int) && forall|k: int|
            0 <= k < ns ==> v@[k] == #[trigger] ship_entry_at(w@, 5 + 10 * k),
        r is None ==> !ship_region_valid(w@, ns as int),
{
    let _len: usize = w.len();
    let mut v: Vec<ShipEntry> = Vec::new();
    let mut i: usize = 0;
    while i < ns
        invariant
            i <= ns,
            6 + 10 * (ns as int) <= w@.len(),
            w@.len() <= usize::MAX,
            v@.len() == i,
            forall|k: int| 0 <= k < i ==> v@[k] == #[trigger] ship_entry_at(w@, 5 + 10 * k),
            forall|k: int| #![trigger w@[5 + 10 * k + 1]] 0 <= k < i ==> w@[5 + 10 * k + 1]
                < 0x1_0000_0000,
            forall|k: int| #![trigger w@[5 + 10 * k + 2]] 0 <= k < i ==> w@[5 + 10 * k + 2] < 7,
        decreases ns - i,
    {
        let base: usize = 5 + 10 * i;
        let t_word = w[base + 1];
        let c_word = w[base + 2];
        if t_word >= 0x1_0000_0000u64 || c_word >= 7 {
            return None;
        }
        let e = ShipEntry {
            handle: w[base],
            team: team_from_word(t_word),
            class: class_from_word(c_word),
            position_x_bits: w[base + 3],
            position_y_bits: w[base + 4],
            velocity_x_bits: w[base + 5],
            velocity_y_bits: w[base + 6],
            heading_bits: w[base + 7],
            angular_velocity_bits: w[base + 8],
            health_bits: w[base + 9],
        };
        v.push(e);
        i = i + 1;
    }
    Some(v)
}

fn parse_bullet_entries(w: &Vec<u64>, off: usize, nb: usize) -> (r: Option<Vec<BulletEntry>>)
    requires
        off as int + 7 * (nb as int) <= w@.len(),
    ensures
        r matches Some(v) ==> v@.len() == nb && bullet_region_valid(w@, off as int, nb as int)
            && forall|k: int|
            0 <= k < nb ==> v@[k] == #[trigger] bullet_entry_at(w@, off as int + 7 * k),
        r is None ==> !bullet_region_valid(w@, off as int, nb as int),
{
    let _len: usize = w.len();
    let mut v: Vec<BulletEntry> = Vec::new();
    let mut i: usize = 0;
    while i < nb
        invariant
            i <= nb,
            off as int + 7 * (nb as int) <= w@.len(),
            w@.len() <= usize::MAX,
            v@.len() == i,
            forall|k: int|
                0 <= k < i ==> v@[k] == #[trigger] bullet_entry_at(w@, off as int + 7 * k),
            forall|k: int| #![trigger w@[off as int + 7 * k + 5]] 0 <= k < i ==> w@[off as int + 7
                * k + 5] < 0x1_0000_0000,
        decreases nb - i,
    {
        let base: usize = off + 7 * i;
        let t_word = w[base + 5];
        if t_word >= 0x1_0000_0000u64 {
            return None;
        }
        let e = BulletEntry {
            position_x_bits: w[base],
            position_y_bits: w[base + 1],
            velocity_x_bits: w[base + 2],
            velocity_y_bits: w[base + 3],
            mass_bits: w[base + 4],
            team: team_from_word(t_word),
            ttl_bits: w[base + 6],
        };
        v.push(e);
        i = i + 1;
    }
    Some(v)
}

fn parse_line_entries(w: &Vec<u64>, off: usize, nl: usize) -> (v: Vec<LineEntry>)
    requires
        off as int + 8 * (nl as int) <= w@.len(),
    ensures
        v@.len() == nl,
        forall|k: int| 0 <= k < nl ==> v@[k] == #[trigger] line_entry_at(w@, off as int + 8 * k),
{
    let _len: usize = w.len();
    let mut v: Vec<LineEntry> = Vec::new();
    let mut i: usize = 0;
    while i < nl
        invariant
            i <= nl,
            off as int + 8 * (nl as int) <= w@.len(),
            w@.len() <= usize::MAX,
            v@.len() == i,
            forall|k: int| 0 <= k < i ==> v@[k] == #[trigger] line_entry_at(w@, off as int + 8 * k),
        decreases nl - i,
    {
        let base: usize = off + 8 * i;
        let e = LineEntry {
            start_x_bits: w[base],
            start_y_bits: w[base + 1],
            end_x_bits: w[base + 2],
            end_y_bits: w[base + 3],
            color_r_bits: w[base + 4],
            color_g_bits: w[base + 5],
            color_b_bits: w[base + 6],
            color_a_bits: w[base + 7],
        };
        v.push(e);
        i = i + 1;
    }
    v
}

#[verifier::rlimit(60)]
fn words_to_snapshot(w: &Vec<u64>) -> (r: Option<Snapshot>)
    ensures
        r matches Some(s) ==> parse_snapshot_words(w@) == Option::Some(s@),
        r is None ==> parse_snapshot_words(w@) is None,
{
    let n: usize = w.len();
    if n < 6 {
        return None;
    }
    if w[0] != SNAPSHOT_VERSION {
        return None;
    }
    if w[1] > 0xffff_ffffu64 {
        return None;
    }
    let tag = w[2];
    let tw = w[3];
    let status_ok: bool = if tag == 1 {
        tw < 0x1_0000_0000u64
    } else {
        (tag == 0 || tag == 2 || tag == 3) && tw == 0x8000_0000u64
    };
    if !status_ok {
        return None;
    }
    let ns64 = w[4];
    proof {
        vstd::arithmetic::div_mod::lemma_fundamental_div_mod((n - 6) as int, 10);
        vstd::arithmetic::div_mod::lemma_mod_bound((n - 6) as int, 10);
    }
    if ns64 > ((n - 6) / 10) as u64 {
        return None;
    }
    let ns = ns64 as usize;
    let boff: usize = 5 + 10 * ns;
    let nb64 = w[boff];
    if n < boff + 2 {
        return None;
    }
    proof {
        vstd::arithmetic::div_mod::lemma_fundamental_div_mod((n - boff - 2) as int, 7);
        vstd::arithmetic::div_mod::lemma_mod_bound((n - boff - 2) as int, 7);
    }
    if nb64 > ((n - boff - 2) / 7) as u64 {
        return None;
    }
    let nb = nb64 as usize;
    let loff: usize = boff + 1 + 7 * nb;
    let nl64 = w[loff];
    proof {
        vstd::arithmetic::div_mod::lemma_fundamental_div_mod((n - loff - 1) as int, 8);
        vstd::arithmetic::div_mod::lemma_mod_bound((n - loff - 1) as int, 8);
    }
    if nl64 > ((n - loff - 1) / 8) as u64 {
        return None;
    }
    let nl = nl64 as usize;
    if n != loff + 1 + 8 * nl {
        return None;
    }
    let ships = match parse_ship_entries(w, ns) {
        Some(v) => v,
        None => {
            return None;
        },
    };
    let bullets = match parse_bullet_entries(w, boff + 1, nb) {
        Some(v) => v,
        None => {
            return None;
        },
    };
    let lines = parse_line_entries(w, loff + 1, nl);
    let status = if tag == 1 {
        Status::Victory { team: team_from_word(tw) }
    } else if tag == 2 {
        Status::Failed
    } else if tag == 3 {
        Status::Draw
    } else {
        Status::Running
    };
    let snap = Snapshot { tick: (w[1]) as u32, status, ships, bullets, lines };
    proof {
        assert(snap@.ships =~= Seq::new(
            ns as nat,
            |i: int| ship_entry_at(w@, 5 + 10 * i),
        ));
        assert(snap@.bullets =~= Seq::new(
            nb as nat,
            |i: int| bullet_entry_at(w@, boff as int + 1 + 7 * i),
        ));
        assert(snap@.lines =~= Seq::new(
            nl as nat,
            |i: int| line_entry_at(w@, loff as int + 1 + 8 * i),
        ));
        assert(parse_snapshot_words(w@) == Option::Some(snap@));
    }
    Some(snap)
}

/// Parse serialized bytes back into a snapshot. Yields a snapshot
/// exactly when the bytes are one well-formed snapshot image.
pub fn decode_snapshot(b: &[u8]) -> (r: Option<Snapshot>)
    ensures
        r matches Some(s) ==> parse_snapshot_bytes(b@) == Option::Some(s@),
        r is None ==> parse_snapshot_bytes(b@) is None,
{
    let words = match words_from_bytes(b) {
        Some(w) => w,
        None => {
            return None;
        },
    };
    words_to_snapshot(&words)
}

/// A word below 2^32 survives the trip through a team number.
pub proof fn lemma_team_word_inverse(x: u64)
    requires
        x < 0x1_0000_0000,
    ensures
        team_bits(team_of_bits(x)) == x,
{
}

/// A word below 7 survives the trip through a ship class.
pub proof fn lemma_class_word_inverse(x: u64)
    requires
        x < 7,
    ensures
        class_tag(class_of_tag(x)) == x,
{
}

proof fn lemma_ship_words_inverse(w: Seq<u64>, off: int)
    requires
        0 <= off,
        off + 10 <= w.len(),
        w[off + 1] < 0x1_0000_0000,
        w[off + 2] < 7,
    ensures
        ship_words(ship_entry_at(w, off)) == w.subrange(off, off + 10),
{
    lemma_team_word_inverse(w[off + 1]);
    lemma_class_word_inverse(w[off + 2]);
    assert(ship_words(ship_entry_at(w, off)) =~= w.subrange(off, off + 10));
}

proof fn lemma_bullet_words_inverse(w: Seq<u64>, off: int)
    requires
        0 <= off,
        off + 7 <= w.len(),
        w[off + 5] < 0x1_0000_0000,
    ensures
        bullet_words(bullet_entry_at(w, off)) == w.subrange(off, off + 7),
{
    lemma_team_word_inverse(w[off + 5]);
    assert(bullet_words(bullet_entry_at(w, off)) =~= w.subrange(off, off + 7));
}

proof fn lemma_line_words_inverse(w: Seq<u64>, off: int)
    requires
        0 <= off,
        off + 8 <= w.len(),
    ensures
        line_words(line_entry_at(w, off)) == w.subrange(off, off + 8),
{
    assert(line_words(line_entry_at(w, off)) =~= w.subrange(off, off + 8));
}

proof fn lemma_ships_words_of_region(w: Seq<u64>, off: int, ns: int)
    requires
        0 <= off,
        0 <= ns,
        off + 10 * ns <= w.len(),
        forall|i: int|
            #![trigger w[off + 10 * i + 1]]
            #![trigger w[off + 10 * i + 2]]
            0 <= i < ns ==> (w[off + 10 * i + 1] < 0x1_0000_0000 && w[off + 10 * i + 2] < 7),
    ensures
        ships_words(Seq::new(ns as nat, |i: int| ship_entry_at(w, off + 10 * i))) == w.subrange(
            off,
            off + 10 * ns,
        ),
    decreases ns,
{
    let s = Seq::new(ns as nat, |i: int| ship_entry_at(w, off + 10 * i));
    if ns == 0 {
        assert(ships_words(s) =~= w.subrange(off, off));
    } else {
        let prev = Seq::new((ns - 1) as nat, |i: int| ship_entry_at(w, off + 10 * i));
        assert(s.drop_last() =~= prev);
        lemma_ships_words_of_region(w, off, ns - 1);
        lemma_ship_words_inverse(w, off + 10 * (ns - 1));
        assert(s.last() == ship_entry_at(w, off + 10 * (ns - 1)));
        assert(ships_words(s) == ships_words(prev) + ship_words(s.last()));
        assert(ships_words(s) =~= w.subrange(off, off + 10 * ns));
    }
}

proof fn lemma_bullets_words_of_region(w: Seq<u64>, off: int, nb: int)
    requires
        0 <= off,
        0 <= nb,
        off + 7 * nb <= w.len(),
        forall|i: int| #![trigger w[off + 7 * i + 5]] 0 <= i < nb ==> w[off + 7 * i + 5]
            < 0x1_0000_0000,
    ensures
        bullets_words(Seq::new(nb as nat, |i: int| bullet_entry_at(w, off + 7 * i))) == w.subrange(
            off,
            off + 7 * nb,
        ),
    decreases nb,
{
    let s = Seq::new(nb as nat, |i: int| bullet_entry_at(w, off + 7 * i));
    if nb == 0 {
        assert(bullets_words(s) =~= w.subrange(off, off));
    } else {
        let prev = Seq::new((nb - 1) as nat, |i: int| bullet_entry_at(w, off + 7 * i));
        assert(s.drop_last() =~= prev);
        lemma_bullets_words_of_region(w, off, nb - 1);
        lemma_bullet_words_inverse(w, off + 7 * (nb - 1));
        assert(s.last() == bullet_entry_at(w, off + 7 * (nb - 1)));
        assert(bullets_words(s) == bullets_words(prev) + bullet_words(s.last()));
        assert(bullets_words(s) =~= w.subrange(off, off + 7 * nb));
    }
}

proof fn lemma_lines_words_of_region(w: Seq<u64>, off: int, nl: int)
    requires
        0 <= off,
        0 <= nl,
        off + 8 * nl <= w.len(),
    ensures
        lines_words(Seq::new(nl as nat, |i: int| line_entry_at(w, off + 8 * i))) == w.subrange(
            off,
            off + 8 * nl,
        ),
    decreases nl,
{
    let s = Seq::new(nl as nat, |i: int| line_entry_at(w, off + 8 * i));
    if nl == 0 {
        assert(lines_words(s) =~= w.subrange(off, off));
    } else {
        let prev = Seq::new((nl - 1) as nat, |i: int| line_entry_at(w, off + 8 * i));
        assert(s.drop_last() =~= prev);
        lemma_lines_words_of_region(w, off, nl - 1);
        lemma_line_words_inverse(w, off + 8 * (nl - 1));
        assert(s.last() == line_entry_at(w, off + 8 * (nl - 1)));
        assert(lines_words(s) == lines_words(prev) + line_words(s.last()));
        assert(lines_words(s) =~= w.subrange(off, off + 8 * nl));
    }
}

/// A word image that parses is exactly the image of what it parses to:
/// the coding has one canonical form.
#[verifier::rlimit(60)]
pub proof fn lemma_parse_snapshot_words_exact(w: Seq<u64>, v: SnapshotView)
    requires
        parse_snapshot_words(w) == Option::Some(v),
    ensures
        snapshot_words(v) == w,
{
    let ns = w[4] as int;
    let boff = 5 + 10 * ns;
    let nb = w[boff] as int;
    let loff = boff + 1 + 7 * nb;
    let nl = w[loff] as int;
    assert(w.len() == loff + 1 + 8 * nl);
    assert(v.ships == Seq::new(ns as nat, |i: int| ship_entry_at(w, 5 + 10 * i)));
    assert(v.bullets == Seq::new(nb as nat, |i: int| bullet_entry_at(w, boff + 1 + 7 * i)));
    assert(v.lines == Seq::new(nl as nat, |i: int| line_entry_at(w, loff + 1 + 8 * i)));
    lemma_ships_words_of_region(w, 5, ns);
    lemma_bullets_words_of_region(w, boff + 1, nb);
    lemma_lines_words_of_region(w, loff + 1, nl);
    assert(status_words(v.status) =~= seq![w[2], w[3]]) by {
        if w[2] == 1 {
            lemma_team_word_inverse(w[3]);
        }
    }
    assert(snapshot_words(v) =~= w);
}

/// Bytes that parse are exactly the serialized form of what they parse
/// to: the codec is deterministic in both directions.
pub proof fn lemma_parse_snapshot_bytes_exact(b: Seq<u8>, v: SnapshotView)
    requires
        parse_snapshot_bytes(b) == Option::Some(v),
    ensures
        snapshot_bytes(v) == b,
{
    match bytes_words(b) {
        Option::Some(w) => {
            lemma_parse_snapshot_words_exact(w, v);
            lemma_bytes_words_exact(b, w);
        },
        Option::None => {
            assert(false);
        },
    }
}

/// The snapshot round trip: serializing any snapshot and parsing the
/// bytes gives the snapshot back.
pub proof fn lemma_snapshot_round_trip(v: SnapshotView)
    requires
        v.ships.len() <= u64::MAX,
        v.bullets.len() <= u64::MAX,
        v.lines.len() <= u64::MAX,
    ensures
        parse_snapshot_bytes(snapshot_bytes(v)) == Option::Some(v),
{
    lemma_bytes_words_round_trip(snapshot_words(v));
    lemma_parse_snapshot_words(v);
}

} // verus!

//! Laws of the two record parsers, stated over their machine runs.
//!
//! The proofs here relate whole report shapes — a prefix before the start
//! marker, a row of well-formed data blocks, the end marker — to the run
//! of each state machine, and pin down what the machines emit on them.

use vstd::prelude::*;
use crate::ephemeris::{
    eoe_marker, orbital_elements_run, soe_marker, spec_orbital_line1,
    spec_orbital_line2, spec_orbital_line3, spec_orbital_line4, spec_split3,
    spec_vector_components, vector_run, EphemerisOrbitalElementsItemView, EphemerisVectorItemView,
    OrbitalElementsParserStateView, OrbitalElementsRun, ParseErrorView, VectorParserStateView,
    VectorRun, FIELD_WIDTH,
};
use crate::fields::{spec_has_prefix, spec_trim};
use crate::numbers::spec_is_number;

verus! {

// ---------------------------------------------------------------------------
// Slicing a line built from its parts
// ---------------------------------------------------------------------------

/// Slicing a line assembled from three tags and three full-width fields
/// gives those fields back.
pub proof fn lemma_split3_concat(
    t1: Seq<char>,
    f1: Seq<char>,
    t2: Seq<char>,
    f2: Seq<char>,
    t3: Seq<char>,
    f3: Seq<char>,
)
    requires
        f1.len() == FIELD_WIDTH,
        f2.len() == FIELD_WIDTH,
        f3.len() == FIELD_WIDTH,
    ensures
        spec_split3(t1 + f1 + t2 + f2 + t3 + f3, t1, t2, t3) == Ok::<_, ParseErrorView>(
            (f1, f2, f3),
        ),
{
    let line = t1 + f1 + t2 + f2 + t3 + f3;
    assert(line.subrange(0, t1.len() as int) =~= t1);
    let a1 = line.skip(t1.len() as int);
    assert(a1 =~= f1 + t2 + f2 + t3 + f3);
    assert(a1.take(FIELD_WIDTH as int) =~= f1);
    let r1 = a1.skip(FIELD_WIDTH as int);
    assert(r1 =~= t2 + f2 + t3 + f3);
    assert(r1.subrange(0, t2.len() as int) =~= t2);
    let a2 = r1.skip(t2.len() as int);
    assert(a2 =~= f2 + t3 + f3);
    assert(a2.take(FIELD_WIDTH as int) =~= f2);
    let r2 = a2.skip(FIELD_WIDTH as int);
    assert(r2 =~= t3 + f3);
    assert(r2.subrange(0, t3.len() as int) =~= t3);
    let a3 = r2.skip(t3.len() as int);
    assert(a3 =~= f3);
    assert(a3.take(FIELD_WIDTH as int) =~= f3);
}

// ---------------------------------------------------------------------------
// Vector machine: well-formed blocks
// ---------------------------------------------------------------------------

/// One well-formed vector data block: a date/label line, the position
/// line, the velocity line, and the annotation line that carries no
/// fields of the record.
pub open spec fn vector_block_wf(b: Seq<Seq<char>>) -> bool {
    &&& b.len() == 4
    &&& b[0] != eoe_marker()
    &&& spec_vector_components(b[1], " X ="@, " Y ="@, " Z ="@) is Ok
    &&& spec_vector_components(b[2], " VX="@, " VY="@, " VZ="@) is Ok
}

/// The record a well-formed vector block describes.
pub open spec fn vector_block_record(b: Seq<Seq<char>>) -> EphemerisVectorItemView {
    EphemerisVectorItemView {
        position: spec_vector_components(b[1], " X ="@, " Y ="@, " Z ="@)->Ok_0,
        velocity: spec_vector_components(b[2], " VX="@, " VY="@, " VZ="@)->Ok_0,
    }
}

/// Consuming one well-formed block emits exactly its record and returns
/// the machine to the state it entered the block in.
pub proof fn lemma_vector_block(b: Seq<Seq<char>>, tail: Seq<Seq<char>>)
    requires
        vector_block_wf(b),
    ensures
        vector_run(b + tail, VectorParserStateView::WaitingForDate) == (VectorRun {
            records: seq![vector_block_record(b)] + vector_run(
                tail,
                VectorParserStateView::WaitingForDate,
            ).records,
            error: vector_run(tail, VectorParserStateView::WaitingForDate).error,
        }),
{
    let l0 = b + tail;
    let l1 = b.skip(1) + tail;
    let l2 = b.skip(2) + tail;
    let l3 = b.skip(3) + tail;
    assert(l0.first() == b[0]);
    assert(l0.drop_first() =~= l1);
    assert(l1.first() == b[1]);
    assert(l1.drop_first() =~= l2);
    assert(l2.first() == b[2]);
    assert(l2.drop_first() =~= l3);
    assert(l3.first() == b[3]);
    assert(l3.drop_first() =~= tail);
    let p = spec_vector_components(b[1], " X ="@, " Y ="@, " Z ="@)->Ok_0;
    let v = spec_vector_components(b[2], " VX="@, " VY="@, " VZ="@)->Ok_0;
    assert(vector_run(l0, VectorParserStateView::WaitingForDate) == vector_run(
        l1,
        VectorParserStateView::WaitingForPosition,
    ));
    assert(vector_run(l1, VectorParserStateView::WaitingForPosition) == vector_run(
        l2,
        VectorParserStateView::Position { position: p },
    ));
    assert(vector_run(l2, VectorParserStateView::Position { position: p }) == vector_run(
        l3,
        VectorParserStateView::Complete { position: p, velocity: v },
    ));
}

/// A row of well-formed blocks emits one record per block, in order.
pub proof fn lemma_vector_blocks(blocks: Seq<Seq<Seq<char>>>, tail: Seq<Seq<char>>)
    requires
        forall|i: int| 0 <= i < blocks.len() ==> vector_block_wf(#[trigger] blocks[i]),
    ensures
        vector_run(blocks.flatten() + tail, VectorParserStateView::WaitingForDate) == (VectorRun {
            records: Seq::new(blocks.len(), |i: int| vector_block_record(blocks[i]))
                + vector_run(tail, VectorParserStateView::WaitingForDate).records,
            error: vector_run(tail, VectorParserStateView::WaitingForDate).error,
        }),
    decreases blocks.len(),
{
    let tr = vector_run(tail, VectorParserStateView::WaitingForDate);
    if blocks.len() == 0 {
        assert(blocks.flatten() + tail =~= tail);
        assert(Seq::new(0, |i: int| vector_block_record(blocks[i])) + tr.records =~= tr.records);
    } else {
        let b0 = blocks.first();
        let rest = blocks.drop_first();
        assert((b0 + rest.flatten()) + tail =~= b0 + (rest.flatten() + tail));
        lemma_vector_blocks(rest, tail);
        lemma_vector_block(b0, rest.flatten() + tail);
        assert(seq![vector_block_record(b0)] + (Seq::new(
            rest.len(),
            |i: int| vector_block_record(rest[i]),
        ) + tr.records) =~= Seq::new(blocks.len(), |i: int| vector_block_record(blocks[i]))
            + tr.records);
    }
}

/// Lines before the start marker are inert: the run over them skips to
/// whatever follows.
pub proof fn lemma_vector_skip_prefix(pre: Seq<Seq<char>>, tail: Seq<Seq<char>>)
    requires
        forall|i: int| 0 <= i < pre.len() ==> #[trigger] pre[i] != soe_marker(),
    ensures
        vector_run(pre + tail, VectorParserStateView::WaitingForSoe) == vector_run(
            tail,
            VectorParserStateView::WaitingForSoe,
        ),
    decreases pre.len(),
{
    if pre.len() == 0 {
        assert(pre + tail =~= tail);
    } else {
        assert((pre + tail).first() == pre[0]);
        assert((pre + tail).drop_first() =~= pre.drop_first() + tail);
        assert(forall|i: int|
            0 <= i < pre.drop_first().len() ==> #[trigger] pre.drop_first()[i] != soe_marker());
        lemma_vector_skip_prefix(pre.drop_first(), tail);
    }
}

/// An input holding no start marker at all yields an empty run and no
/// error: the machine never leaves its initial state.
pub proof fn lemma_vector_no_start_marker(lines: Seq<Seq<char>>)
    requires
        forall|i: int| 0 <= i < lines.len() ==> #[trigger] lines[i] != soe_marker(),
    ensures
        vector_run(lines, VectorParserStateView::WaitingForSoe) == (VectorRun {
            records: Seq::empty(),
            error: None,
        }),
{
    lemma_vector_skip_prefix(lines, Seq::empty());
    assert(lines + Seq::<Seq<char>>::empty() =~= lines);
}

/// On a well-formed report the vector machine emits exactly one record
/// per data block between the markers, fails nowhere, and each emitted
/// record is its block's.
pub proof fn lemma_vector_record_count(
    pre: Seq<Seq<char>>,
    blocks: Seq<Seq<Seq<char>>>,
    post: Seq<Seq<char>>,
)
    requires
        forall|i: int| 0 <= i < pre.len() ==> #[trigger] pre[i] != soe_marker(),
        forall|i: int| 0 <= i < blocks.len() ==> vector_block_wf(#[trigger] blocks[i]),
    ensures
        ({
            let run = vector_run(
                pre + seq![soe_marker()] + blocks.flatten() + seq![eoe_marker()] + post,
                VectorParserStateView::WaitingForSoe,
            );
            &&& run.error is None
            &&& run.records.len() == blocks.len()
            &&& forall|i: int|
                0 <= i < blocks.len() ==> run.records[i] == vector_block_record(
                    #[trigger] blocks[i],
                )
        }),
{
    let start = seq![soe_marker()] + (blocks.flatten() + (seq![eoe_marker()] + post));
    assert(pre + seq![soe_marker()] + blocks.flatten() + seq![eoe_marker()] + post =~= pre
        + start);
    lemma_vector_skip_prefix(pre, start);
    assert(start.first() == soe_marker());
    assert(start.drop_first() =~= blocks.flatten() + (seq![eoe_marker()] + post));
    lemma_vector_blocks(blocks, seq![eoe_marker()] + post);
    let fin = seq![eoe_marker()] + post;
    assert(fin.first() == eoe_marker());
    assert(fin.drop_first() =~= post);
    crate::ephemeris::lemma_vector_run_end(post);
}

/// A position line that does not begin with the ` X =` tag aborts the
/// whole parse with a tag mismatch naming that tag; no record of that
/// block or any later block is emitted.
pub proof fn lemma_vector_tag_mismatch(
    pre: Seq<Seq<char>>,
    date: Seq<char>,
    badline: Seq<char>,
    post: Seq<Seq<char>>,
)
    requires
        forall|i: int| 0 <= i < pre.len() ==> #[trigger] pre[i] != soe_marker(),
        date != eoe_marker(),
        !spec_has_prefix(badline, " X ="@),
    ensures
        vector_run(
            pre + seq![soe_marker(), date, badline] + post,
            VectorParserStateView::WaitingForSoe,
        ) == (VectorRun {
            records: Seq::empty(),
            error: Some(
                ParseErrorView::FieldTagMismatch { expected: " X ="@, actual: badline },
            ),
        }),
{
    let start = seq![soe_marker(), date, badline] + post;
    assert(pre + seq![soe_marker(), date, badline] + post =~= pre + start);
    lemma_vector_skip_prefix(pre, start);
    assert(start.first() == soe_marker());
    let s1 = seq![date, badline] + post;
    assert(start.drop_first() =~= s1);
    assert(s1.first() == date);
    let s2 = seq![badline] + post;
    assert(s1.drop_first() =~= s2);
    assert(s2.first() == badline);
    assert(vector_run(start, VectorParserStateView::WaitingForSoe) == vector_run(
        s1,
        VectorParserStateView::WaitingForDate,
    ));
    assert(vector_run(s1, VectorParserStateView::WaitingForDate) == vector_run(
        s2,
        VectorParserStateView::WaitingForPosition,
    ));
    assert(vector_run(s2, VectorParserStateView::WaitingForPosition) == (VectorRun {
        records: Seq::empty(),
        error: Some(ParseErrorView::FieldTagMismatch { expected: " X ="@, actual: badline }),
    }));
}

// ---------------------------------------------------------------------------
// Vector machine: round trip through a synthetic block
// ---------------------------------------------------------------------------

/// Building a position or velocity line from three full-width fields and
/// reading it back yields the trimmed fields.
pub proof fn lemma_vector_components_concat(
    t1: Seq<char>,
    f1: Seq<char>,
    t2: Seq<char>,
    f2: Seq<char>,
    t3: Seq<char>,
    f3: Seq<char>,
)
    requires
        f1.len() == FIELD_WIDTH,
        f2.len() == FIELD_WIDTH,
        f3.len() == FIELD_WIDTH,
        spec_is_number(spec_trim(f1)),
        spec_is_number(spec_trim(f2)),
        spec_is_number(spec_trim(f3)),
    ensures
        spec_vector_components(t1 + f1 + t2 + f2 + t3 + f3, t1, t2, t3) == Ok::<
            _,
            ParseErrorView,
        >(seq![spec_trim(f1), spec_trim(f2), spec_trim(f3)]),
{
    lemma_split3_concat(t1, f1, t2, f2, t3, f3);
}

/// A synthetic block with known full-width component fields and an
/// arbitrary annotation line round-trips: the machine emits exactly one
/// record holding the trimmed injected values, whatever the annotation
/// line holds.
pub proof fn lemma_vector_round_trip(
    date: Seq<char>,
    x: Seq<char>,
    y: Seq<char>,
    z: Seq<char>,
    vx: Seq<char>,
    vy: Seq<char>,
    vz: Seq<char>,
    annotation: Seq<char>,
)
    requires
        date != eoe_marker(),
        x.len() == FIELD_WIDTH,
        y.len() == FIELD_WIDTH,
        z.len() == FIELD_WIDTH,
        vx.len() == FIELD_WIDTH,
        vy.len() == FIELD_WIDTH,
        vz.len() == FIELD_WIDTH,
        spec_is_number(spec_trim(x)),
        spec_is_number(spec_trim(y)),
        spec_is_number(spec_trim(z)),
        spec_is_number(spec_trim(vx)),
        spec_is_number(spec_trim(vy)),
        spec_is_number(spec_trim(vz)),
    ensures
        ({
            let posline = " X ="@ + x + " Y ="@ + y + " Z ="@ + z;
            let velline = " VX="@ + vx + " VY="@ + vy + " VZ="@ + vz;
            let lines = seq![soe_marker(), date, posline, velline, annotation, eoe_marker()];
            vector_run(lines, VectorParserStateView::WaitingForSoe) == (VectorRun {
                records: seq![
                    EphemerisVectorItemView {
                        position: seq![spec_trim(x), spec_trim(y), spec_trim(z)],
                        velocity: seq![spec_trim(vx), spec_trim(vy), spec_trim(vz)],
                    },
                ],
                error: None,
            })
        }),
{
    let posline = " X ="@ + x + " Y ="@ + y + " Z ="@ + z;
    let velline = " VX="@ + vx + " VY="@ + vy + " VZ="@ + vz;
    let lines = seq![soe_marker(), date, posline, velline, annotation, eoe_marker()];
    lemma_vector_components_concat(" X ="@, x, " Y ="@, y, " Z ="@, z);
    lemma_vector_components_concat(" VX="@, vx, " VY="@, vy, " VZ="@, vz);
    let b = seq![date, posline, velline, annotation];
    assert(vector_block_wf(b));
    let fin = seq![eoe_marker()];
    assert(lines.first() == soe_marker());
    assert(lines.drop_first() =~= b + fin);
    lemma_vector_block(b, fin);
    assert(vector_run(lines, VectorParserStateView::WaitingForSoe) == vector_run(
        b + fin,
        VectorParserStateView::WaitingForDate,
    ));
    assert(fin.first() == eoe_marker());
    assert(fin.drop_first() =~= Seq::<Seq<char>>::empty());
    crate::ephemeris::lemma_vector_run_end(fin.drop_first());
    assert(vector_run(fin, VectorParserStateView::WaitingForDate) == (VectorRun {
        records: Seq::empty(),
        error: None,
    }));
    assert(vector_block_record(b).position =~= seq![spec_trim(x), spec_trim(y), spec_trim(z)]);
    assert(vector_block_record(b).velocity =~= seq![spec_trim(vx), spec_trim(vy), spec_trim(vz)]);
    assert(seq![vector_block_record(b)] + vector_run(
        fin,
        VectorParserStateView::WaitingForDate,
    ).records =~= seq![vector_block_record(b)]);
}

// ---------------------------------------------------------------------------
// Orbital-elements machine: well-formed blocks
// ---------------------------------------------------------------------------

/// One well-formed orbital-elements data block: a date/label line and the
/// four field lines `EC`/`QR`/`IN`, `OM`/`W`/`Tp`, `N`/`MA`/`TA` and
/// `A`/`AD`/`PR`.
pub open spec fn orbital_block_wf(b: Seq<Seq<char>>) -> bool {
    &&& b.len() == 5
    &&& b[0] != eoe_marker()
    &&& spec_orbital_line1(b[1]) is Ok
    &&& spec_orbital_line2(b[2]) is Ok
    &&& spec_orbital_line3(b[3]) is Ok
    &&& spec_orbital_line4(b[4]) is Ok
}

/// The record a well-formed orbital-elements block describes.
pub open spec fn orbital_block_record(b: Seq<Seq<char>>) -> EphemerisOrbitalElementsItemView {
    EphemerisOrbitalElementsItemView {
        eccentricity: spec_orbital_line1(b[1])->Ok_0.0,
        inclination: spec_orbital_line1(b[1])->Ok_0.1,
        longitude_of_ascending_node: spec_orbital_line2(b[2])->Ok_0.0,
        argument_of_perifocus: spec_orbital_line2(b[2])->Ok_0.1,
        mean_anomaly: spec_orbital_line3(b[3])->Ok_0,
        semi_major_axis: spec_orbital_line4(b[4])->Ok_0,
    }
}

/// Consuming one well-formed block emits exactly its record and returns
/// the machine to the state it entered the block in.
pub proof fn lemma_orbital_block(b: Seq<Seq<char>>, tail: Seq<Seq<char>>)
    requires
        orbital_block_wf(b),
    ensures
        orbital_elements_run(b + tail, OrbitalElementsParserStateView::WaitingForDate)
            == (OrbitalElementsRun {
            records: seq![orbital_block_record(b)] + orbital_elements_run(
                tail,
                OrbitalElementsParserStateView::WaitingForDate,
            ).records,
            error: orbital_elements_run(
                tail,
                OrbitalElementsParserStateView::WaitingForDate,
            ).error,
        }),
{
    let l0 = b + tail;
    let l1 = b.skip(1) + tail;
    let l2 = b.skip(2) + tail;
    let l3 = b.skip(3) + tail;
    let l4 = b.skip(4) + tail;
    assert(l0.first() == b[0]);
    assert(l0.drop_first() =~= l1);
    assert(l1.first() == b[1]);
    assert(l1.drop_first() =~= l2);
    assert(l2.first() == b[2]);
    assert(l2.drop_first() =~= l3);
    assert(l3.first() == b[3]);
    assert(l3.drop_first() =~= l4);
    assert(l4.first() == b[4]);
    assert(l4.drop_first() =~= tail);
    let ec = spec_orbital_line1(b[1])->Ok_0.0;
    let inc = spec_orbital_line1(b[1])->Ok_0.1;
    let om = spec_orbital_line2(b[2])->Ok_0.0;
    let w = spec_orbital_line2(b[2])->Ok_0.1;
    let ma = spec_orbital_line3(b[3])->Ok_0;
    assert(orbital_elements_run(l0, OrbitalElementsParserStateView::WaitingForDate)
        == orbital_elements_run(
        l1,
        OrbitalElementsParserStateView::WaitingForEccentricityAndInclination,
    ));
    assert(orbital_elements_run(
        l1,
        OrbitalElementsParserStateView::WaitingForEccentricityAndInclination,
    ) == orbital_elements_run(
        l2,
        OrbitalElementsParserStateView::EccentricityAndInclination {
            eccentricity: ec,
            inclination: inc,
        },
    ));
    assert(orbital_elements_run(
        l2,
        OrbitalElementsParserStateView::EccentricityAndInclination {
            eccentricity: ec,
            inclination: inc,
        },
    ) == orbital_elements_run(
        l3,
        OrbitalElementsParserStateView::AddedAscendingNodeAndPerifocus {
            eccentricity: ec,
            inclination: inc,
            longitude_of_ascending_node: om,
            argument_of_perifocus: w,
        },
    ));
    assert(orbital_elements_run(
        l3,
        OrbitalElementsParserStateView::AddedAscendingNodeAndPerifocus {
            eccentricity: ec,
            inclination: inc,
            longitude_of_ascending_node: om,
            argument_of_perifocus: w,
        },
    ) == orbital_elements_run(
        l4,
        OrbitalElementsParserStateView::AddedMeanAnomaly {
            eccentricity: ec,
            inclination: inc,
            longitude_of_ascending_node: om,
            argument_of_perifocus: w,
            mean_anomaly: ma,
        },
    ));
}

/// A row of well-formed blocks emits one record per block, in order.
pub proof fn lemma_orbital_blocks(blocks: Seq<Seq<Seq<char>>>, tail: Seq<Seq<char>>)
    requires
        forall|i: int| 0 <= i < blocks.len() ==> orbital_block_wf(#[trigger] blocks[i]),
    ensures
        orbital_elements_run(blocks.flatten() + tail, OrbitalElementsParserStateView::WaitingForDate)
            == (OrbitalElementsRun {
            records: Seq::new(blocks.len(), |i: int| orbital_block_record(blocks[i]))
                + orbital_elements_run(
                tail,
                OrbitalElementsParserStateView::WaitingForDate,
            ).records,
            error: orbital_elements_run(
                tail,
                OrbitalElementsParserStateView::WaitingForDate,
            ).error,
        }),
    decreases blocks.len(),
{
    let tr = orbital_elements_run(tail, OrbitalElementsParserStateView::WaitingForDate);
    if blocks.len() == 0 {
        assert(blocks.flatten() + tail =~= tail);
        assert(Seq::new(0, |i: int| orbital_block_record(blocks[i])) + tr.records =~= tr.records);
    } else {
        let b0 = blocks.first();
        let rest = blocks.drop_first();
        assert((b0 + rest.flatten()) + tail =~= b0 + (rest.flatten() + tail));
        lemma_orbital_blocks(rest, tail);
        lemma_orbital_block(b0, rest.flatten() + tail);
        assert(seq![orbital_block_record(b0)] + (Seq::new(
            rest.len(),
            |i: int| orbital_block_record(rest[i]),
        ) + tr.records) =~= Seq::new(blocks.len(), |i: int| orbital_block_record(blocks[i]))
            + tr.records);
    }
}

/// Lines before the start marker are inert: the run over them skips to
/// whatever follows.
pub proof fn lemma_orbital_skip_prefix(pre: Seq<Seq<char>>, tail: Seq<Seq<char>>)
    requires
        forall|i: int| 0 <= i < pre.len() ==> #[trigger] pre[i] != soe_marker(),
    ensures
        orbital_elements_run(pre + tail, OrbitalElementsParserStateView::WaitingForSoe)
            == orbital_elements_run(tail, OrbitalElementsParserStateView::WaitingForSoe),
    decreases pre.len(),
{
    if pre.len() == 0 {
        assert(pre + tail =~= tail);
    } else {
        assert((pre + tail).first() == pre[0]);
        assert((pre + tail).drop_first() =~= pre.drop_first() + tail);
        assert(forall|i: int|
            0 <= i < pre.drop_first().len() ==> #[trigger] pre.drop_first()[i] != soe_marker());
        lemma_orbital_skip_prefix(pre.drop_first(), tail);
    }
}

/// An input holding no start marker at all yields an empty run and no
/// error: the machine never leaves its initial state.
pub proof fn lemma_orbital_no_start_marker(lines: Seq<Seq<char>>)
    requires
        forall|i: int| 0 <= i < lines.len() ==> #[trigger] lines[i] != soe_marker(),
    ensures
        orbital_elements_run(lines, OrbitalElementsParserStateView::WaitingForSoe)
            == (OrbitalElementsRun { records: Seq::empty(), error: None }),
{
    lemma_orbital_skip_prefix(lines, Seq::empty());
    assert(lines + Seq::<Seq<char>>::empty() =~= lines);
}

/// On a well-formed report the orbital-elements machine emits exactly one
/// record per data block between the markers, fails nowhere, and each
/// emitted record is its block's.
pub proof fn lemma_orbital_record_count(
    pre: Seq<Seq<char>>,
    blocks: Seq<Seq<Seq<char>>>,
    post: Seq<Seq<char>>,
)
    requires
        forall|i: int| 0 <= i < pre.len() ==> #[trigger] pre[i] != soe_marker(),
        forall|i: int| 0 <= i < blocks.len() ==> orbital_block_wf(#[trigger] blocks[i]),
    ensures
        ({
            let run = orbital_elements_run(
                pre + seq![soe_marker()] + blocks.flatten() + seq![eoe_marker()] + post,
                OrbitalElementsParserStateView::WaitingForSoe,
            );
            &&& run.error is None
            &&& run.records.len() == blocks.len()
            &&& forall|i: int|
                0 <= i < blocks.len() ==> run.records[i] == orbital_block_record(
                    #[trigger] blocks[i],
                )
        }),
{
    let start = seq![soe_marker()] + (blocks.flatten() + (seq![eoe_marker()] + post));
    assert(pre + seq![soe_marker()] + blocks.flatten() + seq![eoe_marker()] + post =~= pre
        + start);
    lemma_orbital_skip_prefix(pre, start);
    assert(start.first() == soe_marker());
    assert(start.drop_first() =~= blocks.flatten() + (seq![eoe_marker()] + post));
    lemma_orbital_blocks(blocks, seq![eoe_marker()] + post);
    let fin = seq![eoe_marker()] + post;
    assert(fin.first() == eoe_marker());
    assert(fin.drop_first() =~= post);
    crate::ephemeris::lemma_orbital_elements_run_end(post);
}

// ---------------------------------------------------------------------------
// Orbital-elements machine: the discarded fields are inert
// ---------------------------------------------------------------------------

/// Reading back an `EC`/`QR`/`IN` line built from full-width fields keeps
/// the trimmed `EC` and `IN` values, whatever the `QR` field holds.
pub proof fn lemma_orbital_line1_concat(ec: Seq<char>, qr: Seq<char>, inc: Seq<char>)
    requires
        ec.len() == FIELD_WIDTH,
        qr.len() == FIELD_WIDTH,
        inc.len() == FIELD_WIDTH,
        spec_is_number(spec_trim(ec)),
        spec_is_number(spec_trim(inc)),
    ensures
        spec_orbital_line1(" EC="@ + ec + " QR="@ + qr + " IN="@ + inc) == Ok::<
            _,
            ParseErrorView,
        >((spec_trim(ec), spec_trim(inc))),
{
    lemma_split3_concat(" EC="@, ec, " QR="@, qr, " IN="@, inc);
}

/// Reading back an `OM`/`W`/`Tp` line built from full-width fields keeps
/// the trimmed `OM` and `W` values, whatever the `Tp` field holds.
pub proof fn lemma_orbital_line2_concat(om: Seq<char>, w: Seq<char>, tp: Seq<char>)
    requires
        om.len() == FIELD_WIDTH,
        w.len() == FIELD_WIDTH,
        tp.len() == FIELD_WIDTH,
        spec_is_number(spec_trim(om)),
        spec_is_number(spec_trim(w)),
    ensures
        spec_orbital_line2(" OM="@ + om + " W ="@ + w + " Tp="@ + tp) == Ok::<_, ParseErrorView>(
            (spec_trim(om), spec_trim(w)),
        ),
{
    lemma_split3_concat(" OM="@, om, " W ="@, w, " Tp="@, tp);
}

/// Reading back an `N`/`MA`/`TA` line built from full-width fields keeps
/// the trimmed `MA` value, whatever the `N` and `TA` fields hold.
pub proof fn lemma_orbital_line3_concat(mn: Seq<char>, ma: Seq<char>, ta: Seq<char>)
    requires
        mn.len() == FIELD_WIDTH,
        ma.len() == FIELD_WIDTH,
        ta.len() == FIELD_WIDTH,
        spec_is_number(spec_trim(ma)),
    ensures
        spec_orbital_line3(" N ="@ + mn + " MA="@ + ma + " TA="@ + ta) == Ok::<_, ParseErrorView>(
            spec_trim(ma),
        ),
{
    lemma_split3_concat(" N ="@, mn, " MA="@, ma, " TA="@, ta);
}

/// Reading back an `A`/`AD`/`PR` line built from full-width fields keeps
/// the trimmed `A` value, whatever the `AD` and `PR` fields hold.
pub proof fn lemma_orbital_line4_concat(a: Seq<char>, ad: Seq<char>, pr: Seq<char>)
    requires
        a.len() == FIELD_WIDTH,
        ad.len() == FIELD_WIDTH,
        pr.len() == FIELD_WIDTH,
        spec_is_number(spec_trim(a)),
    ensures
        spec_orbital_line4(" A ="@ + a + " AD="@ + ad + " PR="@ + pr) == Ok::<_, ParseErrorView>(
            spec_trim(a),
        ),
{
    lemma_split3_concat(" A ="@, a, " AD="@, ad, " PR="@, pr);
}

/// Varying the discarded fields (`QR`, `Tp`, `N`, `TA`, `AD`, `PR`) of a
/// synthetic block never changes the emitted record: the run emits exactly
/// one record holding the trimmed kept values, and the discarded fields do
/// not appear in it.
pub proof fn lemma_orbital_discard_fields(
    date: Seq<char>,
    ec: Seq<char>,
    qr: Seq<char>,
    inc: Seq<char>,
    om: Seq<char>,
    w: Seq<char>,
    tp: Seq<char>,
    mn: Seq<char>,
    ma: Seq<char>,
    ta: Seq<char>,
    a: Seq<char>,
    ad: Seq<char>,
    pr: Seq<char>,
)
    requires
        date != eoe_marker(),
        ec.len() == FIELD_WIDTH,
        qr.len() == FIELD_WIDTH,
        inc.len() == FIELD_WIDTH,
        om.len() == FIELD_WIDTH,
        w.len() == FIELD_WIDTH,
        tp.len() == FIELD_WIDTH,
        mn.len() == FIELD_WIDTH,
        ma.len() == FIELD_WIDTH,
        ta.len() == FIELD_WIDTH,
        a.len() == FIELD_WIDTH,
        ad.len() == FIELD_WIDTH,
        pr.len() == FIELD_WIDTH,
        spec_is_number(spec_trim(ec)),
        spec_is_number(spec_trim(inc)),
        spec_is_number(spec_trim(om)),
        spec_is_number(spec_trim(w)),
        spec_is_number(spec_trim(ma)),
        spec_is_number(spec_trim(a)),
    ensures
        ({
            let l1 = " EC="@ + ec + " QR="@ + qr + " IN="@ + inc;
            let l2 = " OM="@ + om + " W ="@ + w + " Tp="@ + tp;
            let l3 = " N ="@ + mn + " MA="@ + ma + " TA="@ + ta;
            let l4 = " A ="@ + a + " AD="@ + ad + " PR="@ + pr;
            let lines = seq![soe_marker(), date, l1, l2, l3, l4, eoe_marker()];
            orbital_elements_run(lines, OrbitalElementsParserStateView::WaitingForSoe)
                == (OrbitalElementsRun {
                records: seq![
                    EphemerisOrbitalElementsItemView {
                        eccentricity: spec_trim(ec),
                        inclination: spec_trim(inc),
                        longitude_of_ascending_node: spec_trim(om),
                        argument_of_perifocus: spec_trim(w),
                        mean_anomaly: spec_trim(ma),
                        semi_major_axis: spec_trim(a),
                    },
                ],
                error: None,
            })
        }),
{
    let l1 = " EC="@ + ec + " QR="@ + qr + " IN="@ + inc;
    let l2 = " OM="@ + om + " W ="@ + w + " Tp="@ + tp;
    let l3 = " N ="@ + mn + " MA="@ + ma + " TA="@ + ta;
    let l4 = " A ="@ + a + " AD="@ + ad + " PR="@ + pr;
    let lines = seq![soe_marker(), date, l1, l2, l3, l4, eoe_marker()];
    lemma_orbital_line1_concat(ec, qr, inc);
    lemma_orbital_line2_concat(om, w, tp);
    lemma_orbital_line3_concat(mn, ma, ta);
    lemma_orbital_line4_concat(a, ad, pr);
    let b = seq![date, l1, l2, l3, l4];
    assert(orbital_block_wf(b));
    let fin = seq![eoe_marker()];
    assert(lines.first() == soe_marker());
    assert(lines.drop_first() =~= b + fin);
    lemma_orbital_block(b, fin);
    assert(orbital_elements_run(lines, OrbitalElementsParserStateView::WaitingForSoe)
        == orbital_elements_run(b + fin, OrbitalElementsParserStateView::WaitingForDate));
    assert(fin.first() == eoe_marker());
    assert(fin.drop_first() =~= Seq::<Seq<char>>::empty());
    crate::ephemeris::lemma_orbital_elements_run_end(fin.drop_first());
    assert(orbital_elements_run(fin, OrbitalElementsParserStateView::WaitingForDate)
        == (OrbitalElementsRun { records: Seq::empty(), error: None }));
    assert(seq![orbital_block_record(b)] + orbital_elements_run(
        fin,
        OrbitalElementsParserStateView::WaitingForDate,
    ).records =~= seq![orbital_block_record(b)]);
}

} // verus!


//! Session analysis of completed sweeps. Scalar envelopes never become
//! complex acquisition data or replace the snapshot used for export.

use std::sync::Arc;
use vstd::prelude::*;

use crate::acquisition::CompletedSweep;
use crate::model::{copied, DataModel, PointModel, Real, StreamMode, SweepData, SweepPoint};
use crate::text::{same_text, Caption, Language, Text};

verus! {

/// Most markers of one trace.
pub const MAX_MARKERS: usize = 10;

/// Rows that markers are read from.
#[derive(Debug, Clone, Copy, PartialEq, Eq, Structural)]
pub enum MarkerTarget {
    Hold,
    Maximum,
    Minimum,
    Current,
}

impl Default for MarkerTarget {
    fn default() -> (target: Self)
        ensures
            target is Current,
    {
        MarkerTarget::Current
    }
}

impl MarkerTarget {
    pub open spec fn key(self) -> Text {
        match self {
            MarkerTarget::Current => Text::AnalysisCurrent,
            MarkerTarget::Hold => Text::AnalysisHold,
            MarkerTarget::Maximum => Text::AnalysisMaxHold,
            MarkerTarget::Minimum => Text::AnalysisMinHold,
        }
    }

    pub fn label(self, language: Language) -> (caption: Caption)
        ensures
            caption == (Caption::Entry { language, key: self.key() }),
    {
        language.text(
            match self {
                MarkerTarget::Current => Text::AnalysisCurrent,
                MarkerTarget::Hold => Text::AnalysisHold,
                MarkerTarget::Maximum => Text::AnalysisMaxHold,
                MarkerTarget::Minimum => Text::AnalysisMinHold,
            },
        )
    }
}

/// A user's mark on the frequency axis.
#[derive(Debug, Clone, Copy, PartialEq, Eq, Structural)]
pub struct Marker {
    pub id: u32,
    pub frequency_hz: Real,
    pub selected: bool,
    pub reference: bool,
    pub auto_peak: bool,
}

/// Rows of plain values.
pub open spec fn row_views(rows: Seq<Vec<Real>>) -> Seq<Seq<Real>> {
    rows.map_values(|row: Vec<Real>| row@)
}

/// The rows of a sweep.
pub open spec fn rows_of(points: Seq<PointModel>) -> Seq<Seq<Real>> {
    points.map_values(|point: PointModel| point.values)
}

/// Whether two sweeps sample the same frequencies with rows of the same
/// widths.
pub open spec fn on_same_grid(a: DataModel, b: DataModel) -> bool {
    &&& a.mode == b.mode
    &&& a.format == b.format
    &&& a.points.len() == b.points.len()
    &&& forall|i: int|
        0 <= i < a.points.len() ==> (#[trigger] a.points[i]).freq_hz.equals(b.points[i].freq_hz)
            && a.points[i].values.len() == b.points[i].values.len()
}

pub fn same_grid(a: &SweepData, b: &SweepData) -> (same: bool)
    ensures
        same == on_same_grid(a@, b@),
{
    if a.mode != b.mode || !same_text(a.format.as_str(), b.format.as_str()) || a.points.len()
        != b.points.len() {
        return false;
    }
    let mut index: usize = 0;
    while index < a.points.len()
        invariant
            index <= a.points@.len() == b.points@.len(),
            forall|i: int|
                0 <= i < index ==> (#[trigger] a@.points[i]).freq_hz.equals(b@.points[i].freq_hz)
                    && a@.points[i].values.len() == b@.points[i].values.len(),
        decreases a.points@.len() - index,
    {
        assert(a@.points[index as int] == a.points@[index as int]@);
        assert(b@.points[index as int] == b.points@[index as int]@);
        if !a.points[index].freq_hz.same(b.points[index].freq_hz) || a.points[index].values.len()
            != b.points[index].values.len() {
            return false;
        }
        index = index + 1;
    }
    true
}

/// The rows of a sweep, on their own.
pub fn values(trace: &SweepData) -> (rows: Vec<Vec<Real>>)
    ensures
        row_views(rows@) == rows_of(trace@.points),
{
    let mut rows: Vec<Vec<Real>> = Vec::new();
    let mut index: usize = 0;
    while index < trace.points.len()
        invariant
            index <= trace.points@.len(),
            rows@.len() == index,
            forall|i: int|
                0 <= i < index ==> (#[trigger] rows@[i])@ == trace.points@[i].values@,
        decreases trace.points@.len() - index,
    {
        rows.push(copied(&trace.points[index].values));
        index = index + 1;
    }
    assert(row_views(rows@) =~= rows_of(trace@.points));
    rows
}

/// The reading that an envelope keeps. Readings that are no finite number
/// never displace one that is.
pub open spec fn enveloped(old: Real, new: Real, maximum: bool) -> Real {
    if new.finite() && (!old.finite() || if maximum {
        old.below(new)
    } else {
        new.below(old)
    }) {
        new
    } else {
        old
    }
}

/// A row of an envelope after one more measured row.
pub open spec fn merged_row(row: Seq<Real>, values: Seq<Real>, maximum: bool) -> Seq<Real> {
    Seq::new(
        row.len(),
        |j: int|
            if j < values.len() {
                enveloped(row[j], values[j], maximum)
            } else {
                row[j]
            },
    )
}

/// The rows of an envelope after one more sweep.
pub open spec fn merged(rows: Seq<Seq<Real>>, measured: Seq<Seq<Real>>, maximum: bool) -> Seq<
    Seq<Real>,
> {
    Seq::new(
        rows.len(),
        |i: int|
            if i < measured.len() {
                merged_row(rows[i], measured[i], maximum)
            } else {
                rows[i]
            },
    )
}

fn merge_row(row: &mut Vec<Real>, values: &Vec<Real>, maximum: bool)
    ensures
        final(row)@ == merged_row(old(row)@, values@, maximum),
{
    let mut index: usize = 0;
    while index < row.len() && index < values.len()
        invariant
            index <= row@.len() == old(row)@.len(),
            index <= values@.len(),
            forall|j: int|
                0 <= j < row@.len() ==> #[trigger] row@[j] == if j < index {
                    enveloped(old(row)@[j], values@[j], maximum)
                } else {
                    old(row)@[j]
                },
        decreases row@.len() - index,
    {
        let kept: Real = row[index];
        let new: Real = values[index];
        if new.is_finite() && (!kept.is_finite() || if maximum {
            kept.less(new)
        } else {
            new.less(kept)
        }) {
            row.set(index, new);
        }
        index = index + 1;
    }
    assert(row@ =~= merged_row(old(row)@, values@, maximum));
}

/// The rows that an envelope's switch and cache stand for.
pub open spec fn optional_rows(cache: Option<Vec<Vec<Real>>>) -> Option<Seq<Seq<Real>>> {
    match cache {
        Some(rows) => Some(row_views(rows@)),
        None => None,
    }
}

/// An envelope after one more sweep: nothing while it is off, the sweep itself
/// at first, then the better of both in every place.
pub open spec fn envelope_after(
    cache: Option<Seq<Seq<Real>>>,
    enabled: bool,
    measured: Seq<Seq<Real>>,
    maximum: bool,
) -> Option<Seq<Seq<Real>>> {
    if !enabled {
        None
    } else {
        match cache {
            None => Some(measured),
            Some(rows) => Some(merged(rows, measured, maximum)),
        }
    }
}

pub fn update_envelope(
    cache: &mut Option<Vec<Vec<Real>>>,
    enabled: bool,
    trace: &SweepData,
    maximum: bool,
)
    ensures
        optional_rows(*final(cache)) == envelope_after(
            optional_rows(*old(cache)),
            enabled,
            rows_of(trace@.points),
            maximum,
        ),
{
    if !enabled {
        *cache = None;
        return;
    }
    let Some(mut rows) = cache.take() else {
        *cache = Some(values(trace));
        return;
    };
    let ghost before = row_views(rows@);
    let ghost measured = rows_of(trace@.points);
    let mut index: usize = 0;
    while index < rows.len() && index < trace.points.len()
        invariant
            index <= rows@.len() == before.len(),
            index <= trace.points@.len(),
            measured == rows_of(trace@.points),
            forall|i: int|
                0 <= i < rows@.len() ==> (#[trigger] rows@[i])@ == if i < index {
                    merged_row(before[i], measured[i], maximum)
                } else {
                    before[i]
                },
        decreases rows@.len() - index,
    {
        assert(measured[index as int] == trace.points@[index as int].values@);
        merge_row(&mut rows[index], &trace.points[index].values, maximum);
        index = index + 1;
    }
    assert(row_views(rows@) =~= merged(before, measured, maximum));
    *cache = Some(rows);
}

/// Whether a point can be the nearest at all.
pub open spec fn measurable(points: Seq<PointModel>, distances: Seq<Real>, index: int) -> bool {
    0 <= index < points.len() && index < distances.len() && points[index].freq_hz.finite()
}

/// Whether a point is the first of those at the smallest distance.
pub open spec fn is_nearest(points: Seq<PointModel>, distances: Seq<Real>, index: int) -> bool {
    &&& measurable(points, distances, index)
    &&& forall|i: int|
        #[trigger] measurable(points, distances, i) ==> if i < index {
            distances[index].bits < distances[i].bits
        } else {
            distances[index].bits <= distances[i].bits
        }
}

/// The point that a frequency snaps to.
pub open spec fn nearest_index(
    points: Seq<PointModel>,
    frequency: Real,
    distances: Seq<Real>,
) -> Option<int> {
    if frequency.finite() && exists|i: int| is_nearest(points, distances, i) {
        Some(choose|i: int| is_nearest(points, distances, i))
    } else {
        None
    }
}

/// The point that `frequency` snaps to. `distances` holds, for every point,
/// the absolute difference of its frequency and `frequency`.
pub fn nearest(trace: &SweepData, frequency: Real, distances: &Vec<Real>) -> (index: Option<usize>)
    ensures
        match index {
            Some(index) => nearest_index(trace@.points, frequency, distances@) == Some(
                index as int,
            ) && index < trace.points@.len() && trace.points@[index as int].freq_hz.finite(),
            None => nearest_index(trace@.points, frequency, distances@) is None,
        },
{
    if !frequency.is_finite() {
        return None;
    }
    let ghost points = trace@.points;
    let mut best: Option<usize> = None;
    let mut index: usize = 0;
    while index < trace.points.len() && index < distances.len()
        invariant
            points == trace@.points,
            index <= trace.points@.len(),
            index <= distances@.len(),
            match best {
                Some(at) => at < index && measurable(points, distances@, at as int) && forall|
                    i: int,
                |
                    i < index && #[trigger] measurable(points, distances@, i) ==> if i < at {
                        distances@[at as int].bits < distances@[i].bits
                    } else {
                        distances@[at as int].bits <= distances@[i].bits
                    },
                None => forall|i: int| i < index ==> !#[trigger] measurable(points, distances@, i),
            },
        decreases trace.points@.len() - index,
    {
        assert(points[index as int] == trace.points@[index as int]@);
        if trace.points[index].freq_hz.is_finite() {
            assert(measurable(points, distances@, index as int));
            let closer = match best {
                Some(at) => distances[index].bits < distances[at].bits,
                None => true,
            };
            if closer {
                best = Some(index);
            }
        }
        index = index + 1;
    }
    proof {
        match best {
            Some(at) => {
                assert(is_nearest(points, distances@, at as int));
                lemma_one_nearest(points, distances@, at as int);
                assert(points[at as int] == trace.points@[at as int]@);
            },
            None => {
                assert forall|i: int| !is_nearest(points, distances@, i) by {
                    if is_nearest(points, distances@, i) {
                        assert(measurable(points, distances@, i));
                    }
                }
            },
        }
    }
    best
}

proof fn lemma_one_nearest(points: Seq<PointModel>, distances: Seq<Real>, index: int)
    requires
        is_nearest(points, distances, index),
    ensures
        forall|i: int| is_nearest(points, distances, i) ==> i == index,
{
    assert forall|i: int| is_nearest(points, distances, i) implies i == index by {
        assert(measurable(points, distances, i));
        assert(measurable(points, distances, index));
    }
}

/// Caption of a raw column.
pub open spec fn column_caption(format: Seq<char>, column: usize, language: Language) -> Caption {
    if format == "ma"@ && column == 0 {
        Caption::Entry { language, key: Text::AnalysisMagnitude }
    } else if format == "ma"@ && column == 1 {
        Caption::Entry { language, key: Text::Phase }
    } else if format == "ri"@ && column == 0 {
        Caption::Literal("Re")
    } else if format == "ri"@ && column == 1 {
        Caption::Literal("Im")
    } else if format == "z"@ && column == 0 {
        Caption::Literal("|Z| (ohm)")
    } else if format == "z"@ && column == 1 {
        Caption::Literal("R (ohm)")
    } else if format == "z"@ && column == 2 {
        Caption::Literal("X (ohm)")
    } else if format == "loss"@ {
        Caption::Literal("dB")
    } else if format == "delay"@ {
        Caption::Literal("s")
    } else if format == "vswr"@ {
        Caption::Literal("VSWR")
    } else {
        Caption::Entry { language, key: Text::Level }
    }
}

pub fn column_label(format: &str, column: usize, language: Language) -> (caption: Caption)
    ensures
        caption == column_caption(format@, column, language),
{
    if same_text(format, "ma") && column == 0 {
        language.text(Text::AnalysisMagnitude)
    } else if same_text(format, "ma") && column == 1 {
        language.text(Text::Phase)
    } else if same_text(format, "ri") && column == 0 {
        Caption::Literal("Re")
    } else if same_text(format, "ri") && column == 1 {
        Caption::Literal("Im")
    } else if same_text(format, "z") && column == 0 {
        Caption::Literal("|Z| (ohm)")
    } else if same_text(format, "z") && column == 1 {
        Caption::Literal("R (ohm)")
    } else if same_text(format, "z") && column == 2 {
        Caption::Literal("X (ohm)")
    } else if same_text(format, "loss") {
        Caption::Literal("dB")
    } else if same_text(format, "delay") {
        Caption::Literal("s")
    } else if same_text(format, "vswr") {
        Caption::Literal("VSWR")
    } else {
        language.text(Text::Level)
    }
}

/// Units of raw columns.
#[derive(Debug, Clone, Copy, PartialEq, Eq, Structural)]
pub enum Unit {
    Plain,
    Degrees,
    Ohms,
    Decibels,
    Seconds,
    DecibelMilliwatts,
}

impl Unit {
    pub open spec fn words(self) -> Seq<char> {
        match self {
            Unit::Plain => ""@,
            Unit::Degrees => "deg"@,
            Unit::Ohms => "ohm"@,
            Unit::Decibels => "dB"@,
            Unit::Seconds => "s"@,
            Unit::DecibelMilliwatts => "dBm"@,
        }
    }

    pub fn text(self) -> (text: &'static str)
        ensures
            text@ == self.words(),
    {
        match self {
            Unit::Plain => "",
            Unit::Degrees => "deg",
            Unit::Ohms => "ohm",
            Unit::Decibels => "dB",
            Unit::Seconds => "s",
            Unit::DecibelMilliwatts => "dBm",
        }
    }
}

/// Unit of a raw column.
pub open spec fn unit_of(mode: StreamMode, format: Seq<char>, column: usize) -> Unit {
    if format == "ma"@ && column == 1 {
        Unit::Degrees
    } else if format == "z"@ {
        Unit::Ohms
    } else if format == "loss"@ {
        Unit::Decibels
    } else if format == "delay"@ {
        Unit::Seconds
    } else if format == ""@ && mode is Spec {
        Unit::DecibelMilliwatts
    } else {
        Unit::Plain
    }
}

pub fn column_unit(trace: &SweepData, column: usize) -> (unit: Unit)
    ensures
        unit == unit_of(trace.mode, trace.format@, column),
{
    let format = trace.format.as_str();
    if same_text(format, "ma") && column == 1 {
        Unit::Degrees
    } else if same_text(format, "z") {
        Unit::Ohms
    } else if same_text(format, "loss") {
        Unit::Decibels
    } else if same_text(format, "delay") {
        Unit::Seconds
    } else if same_text(format, "") && trace.mode == StreamMode::Spec {
        Unit::DecibelMilliwatts
    } else {
        Unit::Plain
    }
}

/// Unit of a reading, or of the difference of two readings. A difference of
/// absolute levels is relative.
pub fn difference_unit(trace: &SweepData, column: usize, difference: bool) -> (unit: Unit)
    ensures
        unit == if difference && unit_of(trace.mode, trace.format@, column) is DecibelMilliwatts {
            Unit::Decibels
        } else {
            unit_of(trace.mode, trace.format@, column)
        },
{
    match (column_unit(trace, column), difference) {
        (Unit::DecibelMilliwatts, true) => Unit::Decibels,
        (unit, _) => unit,
    }
}

/// Caption of an overlay: 0 is the held sweep, 1 the maximum, 2 the minimum.
pub open spec fn overlay_caption(
    kind: usize,
    format: Seq<char>,
    column: usize,
    language: Language,
) -> Caption {
    if format == "z"@ && column < 3 {
        match (language, column, kind) {
            (Language::English, 0, 0) => Caption::Literal("Hold |Z|"),
            (Language::English, 0, 1) => Caption::Literal("Max |Z|"),
            (Language::English, 0, _) => Caption::Literal("Min |Z|"),
            (Language::English, 1, 0) => Caption::Literal("Hold R"),
            (Language::English, 1, 1) => Caption::Literal("Max R"),
            (Language::English, 1, _) => Caption::Literal("Min R"),
            (Language::English, _, 0) => Caption::Literal("Hold X"),
            (Language::English, _, 1) => Caption::Literal("Max X"),
            (Language::English, _, _) => Caption::Literal("Min X"),
            (Language::SimplifiedChinese, 0, 0) => Caption::Literal("\u{4fdd}\u{6301} |Z|"),
            (Language::SimplifiedChinese, 0, 1) => Caption::Literal("\u{6700}\u{5927} |Z|"),
            (Language::SimplifiedChinese, 0, _) => Caption::Literal("\u{6700}\u{5c0f} |Z|"),
            (Language::SimplifiedChinese, 1, 0) => Caption::Literal("\u{4fdd}\u{6301} R"),
            (Language::SimplifiedChinese, 1, 1) => Caption::Literal("\u{6700}\u{5927} R"),
            (Language::SimplifiedChinese, 1, _) => Caption::Literal("\u{6700}\u{5c0f} R"),
            (Language::SimplifiedChinese, _, 0) => Caption::Literal("\u{4fdd}\u{6301} X"),
            (Language::SimplifiedChinese, _, 1) => Caption::Literal("\u{6700}\u{5927} X"),
            (Language::SimplifiedChinese, _, _) => Caption::Literal("\u{6700}\u{5c0f} X"),
        }
    } else {
        Caption::Entry {
            language,
            key: if kind == 0 {
                Text::AnalysisHold
            } else if kind == 1 {
                Text::AnalysisMaxHold
            } else {
                Text::AnalysisMinHold
            },
        }
    }
}

pub fn overlay_name(kind: usize, format: &str, column: usize, language: Language) -> (caption:
    Caption)
    requires
        kind < 3,
    ensures
        caption == overlay_caption(kind, format@, column, language),
{
    if same_text(format, "z") && column < 3 {
        match (language, column, kind) {
            (Language::English, 0, 0) => Caption::Literal("Hold |Z|"),
            (Language::English, 0, 1) => Caption::Literal("Max |Z|"),
            (Language::English, 0, _) => Caption::Literal("Min |Z|"),
            (Language::English, 1, 0) => Caption::Literal("Hold R"),
            (Language::English, 1, 1) => Caption::Literal("Max R"),
            (Language::English, 1, _) => Caption::Literal("Min R"),
            (Language::English, _, 0) => Caption::Literal("Hold X"),
            (Language::English, _, 1) => Caption::Literal("Max X"),
            (Language::English, _, _) => Caption::Literal("Min X"),
            (Language::SimplifiedChinese, 0, 0) => Caption::Literal("\u{4fdd}\u{6301} |Z|"),
            (Language::SimplifiedChinese, 0, 1) => Caption::Literal("\u{6700}\u{5927} |Z|"),
            (Language::SimplifiedChinese, 0, _) => Caption::Literal("\u{6700}\u{5c0f} |Z|"),
            (Language::SimplifiedChinese, 1, 0) => Caption::Literal("\u{4fdd}\u{6301} R"),
            (Language::SimplifiedChinese, 1, 1) => Caption::Literal("\u{6700}\u{5927} R"),
            (Language::SimplifiedChinese, 1, _) => Caption::Literal("\u{6700}\u{5c0f} R"),
            (Language::SimplifiedChinese, _, 0) => Caption::Literal("\u{4fdd}\u{6301} X"),
            (Language::SimplifiedChinese, _, 1) => Caption::Literal("\u{6700}\u{5927} X"),
            (Language::SimplifiedChinese, _, _) => Caption::Literal("\u{6700}\u{5c0f} X"),
        }
    } else if kind == 0 {
        language.text(Text::AnalysisHold)
    } else if kind == 1 {
        language.text(Text::AnalysisMaxHold)
    } else {
        language.text(Text::AnalysisMinHold)
    }
}

/// Which sample a search looks for.
#[derive(Debug, Clone, Copy, PartialEq, Eq, Structural)]
pub enum Search {
    Maximum,
    Minimum,
    Left,
    Right,
}

/// Rows that a search or a reading uses.
pub enum TargetRows<'a> {
    Current(&'a SweepData),
    Stored(&'a Vec<Vec<Real>>),
}

impl<'a> TargetRows<'a> {
    pub open spec fn rows(self) -> Seq<Seq<Real>> {
        match self {
            TargetRows::Current(trace) => rows_of(trace@.points),
            TargetRows::Stored(rows) => row_views(rows@),
        }
    }

    /// One reading, where the row and the column exist.
    pub fn reading(&self, index: usize, column: usize) -> (value: Option<Real>)
        ensures
            value == reading_at(self.rows(), index as int, column as int),
    {
        match self {
            TargetRows::Current(trace) => {
                if index < trace.points.len() && column < trace.points[index].values.len() {
                    assert(trace@.points[index as int] == trace.points@[index as int]@);
                    Some(trace.points[index].values[column])
                } else {
                    proof {
                        if index < trace.points.len() {
                            assert(trace@.points[index as int] == trace.points@[index as int]@);
                        }
                    }
                    None
                }
            },
            TargetRows::Stored(rows) => {
                if index < rows.len() && column < rows[index].len() {
                    Some(rows[index][column])
                } else {
                    None
                }
            },
        }
    }

    /// Whether a row exists.
    pub fn has_row(&self, index: usize) -> (exists_row: bool)
        ensures
            exists_row == (index < self.rows().len()),
    {
        match self {
            TargetRows::Current(trace) => index < trace.points.len(),
            TargetRows::Stored(rows) => index < rows.len(),
        }
    }
}

/// The reading in a row and column, where they exist.
pub open spec fn reading_at(rows: Seq<Seq<Real>>, index: int, column: int) -> Option<Real> {
    if 0 <= index < rows.len() && 0 <= column < rows[index].len() {
        Some(rows[index][column])
    } else {
        None
    }
}

/// Whether a search considers a sample: it has a finite frequency and
/// reading, and lies on the side that is looked at.
pub open spec fn eligible(
    points: Seq<PointModel>,
    rows: Seq<Seq<Real>>,
    column: int,
    action: Search,
    frequency: Real,
    index: int,
) -> bool {
    &&& 0 <= index < points.len()
    &&& reading_at(rows, index, column) is Some
    &&& reading_at(rows, index, column)->0.finite()
    &&& points[index].freq_hz.finite()
    &&& action is Left ==> !(frequency.below(points[index].freq_hz) || frequency.equals(
        points[index].freq_hz,
    ))
    &&& action is Right ==> !(points[index].freq_hz.below(frequency) || frequency.equals(
        points[index].freq_hz,
    ))
}

/// Whether a search prefers `a` over `b`.
pub open spec fn preferred(action: Search, a: Real, b: Real) -> bool {
    if action is Minimum {
        a.below(b)
    } else {
        b.below(a)
    }
}

/// Whether a sample is the first of the best ones.
pub open spec fn is_best(
    points: Seq<PointModel>,
    rows: Seq<Seq<Real>>,
    column: int,
    action: Search,
    frequency: Real,
    index: int,
) -> bool {
    &&& eligible(points, rows, column, action, frequency, index)
    &&& forall|i: int|
        #[trigger] eligible(points, rows, column, action, frequency, i) ==> if i < index {
            preferred(action, rows[index][column], rows[i][column])
        } else {
            !preferred(action, rows[i][column], rows[index][column])
        }
}

/// The frequency that a search finds.
pub open spec fn found(
    points: Seq<PointModel>,
    rows: Option<Seq<Seq<Real>>>,
    column: int,
    action: Search,
    frequency: Real,
) -> Option<Real> {
    if rows is Some && exists|i: int| is_best(points, rows->0, column, action, frequency, i) {
        Some(
            points[choose|i: int|
                is_best(points, rows->0, column, action, frequency, i)].freq_hz,
        )
    } else {
        None
    }
}

proof fn lemma_one_best(
    points: Seq<PointModel>,
    rows: Seq<Seq<Real>>,
    column: int,
    action: Search,
    frequency: Real,
    index: int,
)
    requires
        is_best(points, rows, column, action, frequency, index),
    ensures
        forall|i: int| is_best(points, rows, column, action, frequency, i) ==> i == index,
{
    assert forall|i: int| is_best(points, rows, column, action, frequency, i) implies i
        == index by {
        assert(eligible(points, rows, column, action, frequency, i));
        assert(eligible(points, rows, column, action, frequency, index));
    }
}

/// Search the readings of one column.
fn search_rows(
    trace: &SweepData,
    rows: &TargetRows<'_>,
    column: usize,
    action: Search,
    frequency: Real,
) -> (result: Option<Real>)
    ensures
        result == found(trace@.points, Some(rows.rows()), column as int, action, frequency),
{
    let ghost points = trace@.points;
    let ghost readings = rows.rows();
    let mut best: Option<(usize, Real)> = None;
    let mut index: usize = 0;
    while index < trace.points.len()
        invariant
            points == trace@.points,
            readings == rows.rows(),
            index <= trace.points@.len(),
            match best {
                Some((at, value)) => {
                    &&& at < index
                    &&& eligible(points, readings, column as int, action, frequency, at as int)
                    &&& value == readings[at as int][column as int]
                    &&& forall|i: int|
                        i < index && #[trigger] eligible(
                            points,
                            readings,
                            column as int,
                            action,
                            frequency,
                            i,
                        ) ==> if i < at {
                            preferred(action, value, readings[i][column as int])
                        } else {
                            !preferred(action, readings[i][column as int], value)
                        }
                },
                None => forall|i: int|
                    i < index ==> !#[trigger] eligible(
                        points,
                        readings,
                        column as int,
                        action,
                        frequency,
                        i,
                    ),
            },
        decreases trace.points@.len() - index,
    {
        assert(points[index as int] == trace.points@[index as int]@);
        let sampled: Real = trace.points[index].freq_hz;
        let reading = rows.reading(index, column);
        if let Some(value) = reading {
            let beside = match action {
                Search::Left => frequency.less(sampled) || frequency.same(sampled),
                Search::Right => sampled.less(frequency) || frequency.same(sampled),
                _ => false,
            };
            if sampled.is_finite() && value.is_finite() && !beside {
                assert(eligible(points, readings, column as int, action, frequency, index as int));
                let better = match best {
                    None => true,
                    Some((_, previous)) => match action {
                        Search::Minimum => value.less(previous),
                        _ => previous.less(value),
                    },
                };
                if better {
                    best = Some((index, value));
                }
            } else {
                assert(!eligible(points, readings, column as int, action, frequency, index as int));
            }
        } else {
            assert(!eligible(points, readings, column as int, action, frequency, index as int));
        }
        index = index + 1;
    }
    match best {
        Some((at, _)) => {
            proof {
                assert(is_best(points, readings, column as int, action, frequency, at as int));
                lemma_one_best(points, readings, column as int, action, frequency, at as int);
                assert(points[at as int] == trace.points@[at as int]@);
            }
            Some(trace.points[at].freq_hz)
        },
        None => {
            proof {
                assert forall|i: int| !is_best(
                    points,
                    readings,
                    column as int,
                    action,
                    frequency,
                    i,
                ) by {
                    if is_best(points, readings, column as int, action, frequency, i) {
                        assert(eligible(points, readings, column as int, action, frequency, i));
                    }
                }
            }
            None
        },
    }
}

/// What a user hid or showed of the overlays.
#[derive(Debug, PartialEq, Eq)]
pub struct OverlayVisibilityConfig {
    pub format: String,
    pub kind: usize,
    pub column: usize,
    pub visible: bool,
}

/// User settings only. Measurement rows and hold buffers are session data.
#[derive(Debug, PartialEq, Eq)]
pub struct AnalysisConfig {
    pub markers: Vec<Marker>,
    pub next_id: u32,
    pub hold: bool,
    pub max_hold: bool,
    pub min_hold: bool,
    pub column: usize,
    pub target: MarkerTarget,
    pub overlay_visibility: Vec<OverlayVisibilityConfig>,
}

impl AnalysisConfig {
    /// Whether both hold the same settings.
    pub open spec fn same_as(self, other: Self) -> bool {
        &&& self.markers@ == other.markers@
        &&& self.next_id == other.next_id
        &&& self.hold == other.hold
        &&& self.max_hold == other.max_hold
        &&& self.min_hold == other.min_hold
        &&& self.column == other.column
        &&& self.target == other.target
        &&& entry_models(self.overlay_visibility@) == entry_models(other.overlay_visibility@)
    }
}

impl Default for AnalysisConfig {
    fn default() -> (config: Self)
        ensures
            config.markers@.len() == 0,
            config.next_id == 0,
            !config.hold && !config.max_hold && !config.min_hold,
            config.column == 0,
            config.target is Current,
            config.overlay_visibility@.len() == 0,
    {
        AnalysisConfig {
            markers: Vec::new(),
            next_id: 0,
            hold: false,
            max_hold: false,
            min_hold: false,
            column: 0,
            target: MarkerTarget::Current,
            overlay_visibility: Vec::new(),
        }
    }
}

impl Clone for AnalysisConfig {
    fn clone(&self) -> (copy: Self)
        ensures
            copy.same_as(*self),
    {
        AnalysisConfig {
            markers: copied(&self.markers),
            next_id: self.next_id,
            hold: self.hold,
            max_hold: self.max_hold,
            min_hold: self.min_hold,
            column: self.column,
            target: self.target,
            overlay_visibility: copy_entries(&self.overlay_visibility),
        }
    }
}

/// Names an overlay: wire format, envelope kind and raw column, never a
/// translated label.
#[derive(Debug, PartialEq, Eq)]
pub struct OverlayKey {
    pub format: String,
    pub kind: usize,
    pub column: usize,
}

/// What an overlay's name stands for.
pub type KeyModel = (Seq<char>, usize, usize);

impl View for OverlayKey {
    type V = KeyModel;

    open spec fn view(&self) -> KeyModel {
        (self.format@, self.kind, self.column)
    }
}

/// What an entry stands for.
pub open spec fn entry_model(entry: OverlayVisibilityConfig) -> (KeyModel, bool) {
    ((entry.format@, entry.kind, entry.column), entry.visible)
}

/// What a list of entries stands for.
pub open spec fn entry_models(entries: Seq<OverlayVisibilityConfig>) -> Seq<(KeyModel, bool)> {
    entries.map_values(|entry: OverlayVisibilityConfig| entry_model(entry))
}

/// Whether a string comes first in the order of its characters' codes.
pub open spec fn text_before(a: Seq<char>, b: Seq<char>) -> bool
    decreases a.len(),
{
    if b.len() == 0 {
        false
    } else if a.len() == 0 {
        true
    } else if a[0] != b[0] {
        (a[0] as int) < (b[0] as int)
    } else {
        text_before(a.skip(1), b.skip(1))
    }
}

/// Whether a name comes first: by format, then by kind, then by column.
pub open spec fn key_before(a: KeyModel, b: KeyModel) -> bool {
    if a.0 != b.0 {
        text_before(a.0, b.0)
    } else if a.1 != b.1 {
        a.1 < b.1
    } else {
        a.2 < b.2
    }
}

/// Whether entries stand in order, each name once.
pub open spec fn in_order(entries: Seq<(KeyModel, bool)>) -> bool {
    forall|i: int, j: int|
        0 <= i < j < entries.len() ==> key_before((#[trigger] entries[i]).0, (
        #[trigger] entries[j]).0)
}

proof fn lemma_text_before_total(a: Seq<char>, b: Seq<char>)
    ensures
        text_before(a, b) || text_before(b, a) || a == b,
        !(text_before(a, b) && text_before(b, a)),
        !text_before(a, a),
    decreases a.len(),
{
    if a.len() > 0 {
        lemma_text_before_total(a.skip(1), a.skip(1));
    }
    if a.len() > 0 && b.len() > 0 && a[0] == b[0] {
        lemma_text_before_total(a.skip(1), b.skip(1));
        if a.skip(1) == b.skip(1) {
            assert(a =~= seq![a[0]] + a.skip(1));
            assert(b =~= seq![b[0]] + b.skip(1));
        }
    } else if a.len() == 0 && b.len() == 0 {
        assert(a =~= b);
    }
}

proof fn lemma_text_before_transitive(a: Seq<char>, b: Seq<char>, c: Seq<char>)
    requires
        text_before(a, b),
        text_before(b, c),
    ensures
        text_before(a, c),
    decreases a.len(),
{
    if a.len() > 0 && a[0] == b[0] && b[0] == c[0] {
        lemma_text_before_transitive(a.skip(1), b.skip(1), c.skip(1));
    }
}

proof fn lemma_key_before_total(a: KeyModel, b: KeyModel)
    ensures
        key_before(a, b) || key_before(b, a) || a == b,
        !(key_before(a, b) && key_before(b, a)),
        !key_before(a, a),
{
    lemma_text_before_total(a.0, b.0);
}

proof fn lemma_key_before_transitive(a: KeyModel, b: KeyModel, c: KeyModel)
    requires
        key_before(a, b),
        key_before(b, c),
    ensures
        key_before(a, c),
{
    lemma_text_before_total(a.0, b.0);
    lemma_text_before_total(b.0, c.0);
    lemma_text_before_total(a.0, c.0);
    if a.0 != b.0 && b.0 != c.0 {
        lemma_text_before_transitive(a.0, b.0, c.0);
    }
}

fn text_precedes(a: &str, b: &str) -> (before: bool)
    ensures
        before == text_before(a@, b@),
{
    let a_len: usize = a.unicode_len();
    let b_len: usize = b.unicode_len();
    let mut index: usize = 0;
    assert(a@.skip(0) =~= a@);
    assert(b@.skip(0) =~= b@);
    while index < a_len && index < b_len
        invariant
            a_len == a@.len(),
            b_len == b@.len(),
            index <= a_len,
            index <= b_len,
            text_before(a@, b@) == text_before(a@.skip(index as int), b@.skip(index as int)),
        decreases a_len - index,
    {
        let x: char = a.get_char(index);
        let y: char = b.get_char(index);
        if x != y {
            return (x as u32) < (y as u32);
        }
        assert(a@.skip(index as int).skip(1) =~= a@.skip(index + 1));
        assert(b@.skip(index as int).skip(1) =~= b@.skip(index + 1));
        index = index + 1;
    }
    index < b_len
}

fn key_precedes(
    a_format: &str,
    a_kind: usize,
    a_column: usize,
    b_format: &str,
    b_kind: usize,
    b_column: usize,
) -> (before: bool)
    ensures
        before == key_before((a_format@, a_kind, a_column), (b_format@, b_kind, b_column)),
{
    if !same_text(a_format, b_format) {
        text_precedes(a_format, b_format)
    } else if a_kind != b_kind {
        a_kind < b_kind
    } else {
        a_column < b_column
    }
}

/// The entries after one is set: a known name takes the new value in its
/// place, a new one takes its place in the order.
pub open spec fn entry_set(entries: Seq<(KeyModel, bool)>, key: KeyModel, visible: bool) -> Seq<
    (KeyModel, bool),
>
    decreases entries.len(),
{
    if entries.len() == 0 {
        seq![(key, visible)]
    } else if entries[0].0 == key {
        entries.update(0, (key, visible))
    } else if key_before(key, entries[0].0) {
        seq![(key, visible)] + entries
    } else {
        seq![entries[0]] + entry_set(entries.skip(1), key, visible)
    }
}

/// Whether a name is shown. Unknown names are.
pub open spec fn shown(entries: Seq<(KeyModel, bool)>, key: KeyModel) -> bool
    decreases entries.len(),
{
    if entries.len() == 0 {
        true
    } else if entries[0].0 == key {
        entries[0].1
    } else {
        shown(entries.skip(1), key)
    }
}

/// Setting a name changes what is shown of that name alone, and keeps the
/// entries in order.
pub proof fn law_entry_set(entries: Seq<(KeyModel, bool)>, key: KeyModel, visible: bool)
    requires
        in_order(entries),
    ensures
        in_order(entry_set(entries, key, visible)),
        shown(entry_set(entries, key, visible), key) == visible,
        forall|other: KeyModel|
            other != key ==> #[trigger] shown(entry_set(entries, key, visible), other) == shown(
                entries,
                other,
            ),
        entry_set(entries, key, visible).len() <= entries.len() + 1,
        forall|i: int|
            0 <= i < entry_set(entries, key, visible).len() ==> (#[trigger] entry_set(
                entries,
                key,
                visible,
            )[i]).0 == key || exists|j: int|
                0 <= j < entries.len() && (#[trigger] entries[j]).0 == entry_set(
                    entries,
                    key,
                    visible,
                )[i].0,
    decreases entries.len(),
{
    reveal_with_fuel(shown, 2);
    let after = entry_set(entries, key, visible);
    if entries.len() == 0 {
        assert(after.skip(1) =~= entries);
    } else if entries[0].0 == key {
        assert(after.skip(1) =~= entries.skip(1));
        assert forall|other: KeyModel| other != key implies #[trigger] shown(after, other) == shown(
            entries,
            other,
        ) by {
            assert(shown(after, other) == shown(after.skip(1), other));
            assert(shown(entries, other) == shown(entries.skip(1), other));
        }
        assert forall|i: int| 0 <= i < after.len() implies (#[trigger] after[i]).0 == key || exists|
            j: int,
        |
            0 <= j < entries.len() && (#[trigger] entries[j]).0 == after[i].0 by {
            assert(entries[i].0 == after[i].0);
        }
    } else if key_before(key, entries[0].0) {
        assert(after.skip(1) =~= entries);
        assert forall|other: KeyModel| other != key implies #[trigger] shown(after, other) == shown(
            entries,
            other,
        ) by {
            assert(shown(after, other) == shown(after.skip(1), other));
        }
        assert forall|i: int, j: int| 0 <= i < j < after.len() implies key_before(
            (#[trigger] after[i]).0,
            (#[trigger] after[j]).0,
        ) by {
            if i == 0 {
                assert(after[j] == entries[j - 1]);
                if j > 1 {
                    lemma_key_before_transitive(key, entries[0].0, entries[j - 1].0);
                }
            } else {
                assert(after[i] == entries[i - 1]);
                assert(after[j] == entries[j - 1]);
            }
        }
        assert forall|i: int| 0 <= i < after.len() implies (#[trigger] after[i]).0 == key || exists|
            j: int,
        |
            0 <= j < entries.len() && (#[trigger] entries[j]).0 == after[i].0 by {
            if i > 0 {
                assert(entries[i - 1].0 == after[i].0);
            }
        }
    } else {
        let rest = entries.skip(1);
        let tail = entry_set(rest, key, visible);
        assert(in_order(rest)) by {
            assert forall|i: int, j: int| 0 <= i < j < rest.len() implies key_before(
                (#[trigger] rest[i]).0,
                (#[trigger] rest[j]).0,
            ) by {
                assert(rest[i] == entries[i + 1]);
                assert(rest[j] == entries[j + 1]);
            }
        }
        law_entry_set(rest, key, visible);
        lemma_key_before_total(key, entries[0].0);
        assert(after.skip(1) =~= tail);
        assert forall|other: KeyModel| other != key implies #[trigger] shown(after, other) == shown(
            entries,
            other,
        ) by {
            assert(after[0] == entries[0]);
            assert(shown(tail, other) == shown(rest, other));
            if entries[0].0 != other {
                assert(shown(after, other) == shown(after.skip(1), other));
                assert(shown(entries, other) == shown(rest, other));
            }
        }
        assert forall|i: int, j: int| 0 <= i < j < after.len() implies key_before(
            (#[trigger] after[i]).0,
            (#[trigger] after[j]).0,
        ) by {
            assert(after[j] == tail[j - 1]);
            if i == 0 {
                if tail[j - 1].0 != key {
                    let k = choose|k: int|
                        0 <= k < rest.len() && (#[trigger] rest[k]).0 == tail[j - 1].0;
                    assert(rest[k] == entries[k + 1]);
                }
            } else {
                assert(after[i] == tail[i - 1]);
            }
        }
        assert forall|i: int| 0 <= i < after.len() implies (#[trigger] after[i]).0 == key || exists|
            j: int,
        |
            0 <= j < entries.len() && (#[trigger] entries[j]).0 == after[i].0 by {
            if i == 0 {
                assert(entries[0].0 == after[0].0);
            } else if tail[i - 1].0 != key {
                let k = choose|k: int|
                    0 <= k < rest.len() && (#[trigger] rest[k]).0 == tail[i - 1].0;
                assert(entries[k + 1].0 == after[i].0);
            }
        }
    }
}

/// Analysis of one trace: what the user set up, and what was measured.
#[derive(Debug)]
pub struct AnalysisTools {
    pub latest: Option<Arc<CompletedSweep>>,
    pub hold: bool,
    pub max_hold: bool,
    pub min_hold: bool,
    pub held: Option<Vec<Vec<Real>>>,
    pub maxima: Option<Vec<Vec<Real>>>,
    pub minima: Option<Vec<Vec<Real>>>,
    pub markers: Vec<Marker>,
    pub next_id: u32,
    pub trace_id: u64,
    pub column: usize,
    pub fixed_column: Option<usize>,
    pub restored_column: bool,
    pub target: MarkerTarget,
    pub smith: bool,
    pub language: Language,
    pub overlay_visibility: Vec<OverlayVisibilityConfig>,
    pub rendered_overlays: Vec<OverlayKey>,
}

impl Default for AnalysisTools {
    fn default() -> (tools: Self)
        ensures
            tools.wf(),
            tools.latest is None,
            !tools.hold && !tools.max_hold && !tools.min_hold,
            tools.held is None && tools.maxima is None && tools.minima is None,
            tools.markers@.len() == 0,
            tools.next_id == 0 && tools.trace_id == 0 && tools.column == 0,
            tools.fixed_column is None,
            !tools.restored_column && !tools.smith,
            tools.target is Current,
            tools.language is English,
            tools.overlay_visibility@.len() == 0,
            tools.rendered_overlays@.len() == 0,
    {
        AnalysisTools {
            latest: None,
            hold: false,
            max_hold: false,
            min_hold: false,
            held: None,
            maxima: None,
            minima: None,
            markers: Vec::new(),
            next_id: 0,
            trace_id: 0,
            column: 0,
            fixed_column: None,
            restored_column: false,
            target: MarkerTarget::Current,
            smith: false,
            language: Language::English,
            overlay_visibility: Vec::new(),
            rendered_overlays: Vec::new(),
        }
    }
}

/// The rows of a hold that is switched on or off.
pub open spec fn hold_after(
    cache: Option<Seq<Seq<Real>>>,
    enabled: bool,
    measured: Seq<Seq<Real>>,
) -> Option<Seq<Seq<Real>>> {
    if !enabled {
        None
    } else if cache is None {
        Some(measured)
    } else {
        cache
    }
}

/// Whether a marker can be restored.
pub open spec fn restorable(marker: Marker) -> bool {
    marker.id != 0 && marker.frequency_hz.finite() && marker.frequency_hz.rank() >= 0
}

/// Whether a marker's number is taken.
pub open spec fn has_marker(markers: Seq<Marker>, id: u32) -> bool {
    exists|i: int| 0 <= i < markers.len() && (#[trigger] markers[i]).id == id
}

/// The markers that are restored from the first `count` of a list: the first
/// ones with their own number and a real frequency, up to the limit.
pub open spec fn restored_markers(markers: Seq<Marker>, count: int) -> Seq<Marker>
    decreases count,
{
    if count <= 0 {
        seq![]
    } else {
        let kept = restored_markers(markers, count - 1);
        let next = markers[count - 1];
        if kept.len() < MAX_MARKERS && restorable(next) && !has_marker(kept, next.id) {
            kept.push(next)
        } else {
            kept
        }
    }
}

/// Whether `index` is the first reference marker.
pub open spec fn is_first_reference(markers: Seq<Marker>, index: int) -> bool {
    0 <= index < markers.len() && markers[index].reference && forall|i: int|
        0 <= i < index ==> !(#[trigger] markers[i]).reference
}

/// Whether `index` is the marker that counts as selected: the first selected
/// one, or the first of all when none is.
pub open spec fn is_chosen(markers: Seq<Marker>, index: int) -> bool {
    &&& 0 <= index < markers.len()
    &&& if exists|i: int| 0 <= i < markers.len() && (#[trigger] markers[i]).selected {
        markers[index].selected && forall|i: int|
            0 <= i < index ==> !(#[trigger] markers[i]).selected
    } else {
        index == 0
    }
}

/// The markers with exactly one selected and at most one reference.
pub open spec fn normalized_markers(markers: Seq<Marker>) -> Seq<Marker> {
    Seq::new(
        markers.len(),
        |i: int|
            Marker {
                selected: is_chosen(markers, i),
                reference: is_first_reference(markers, i),
                ..markers[i]
            },
    )
}

/// The largest number in use, at least `low`.
pub open spec fn largest_id(markers: Seq<Marker>, low: u32) -> u32
    decreases markers.len(),
{
    if markers.len() == 0 {
        low
    } else {
        let rest = largest_id(markers.drop_last(), low);
        if markers.last().id > rest {
            markers.last().id
        } else {
            rest
        }
    }
}

/// Markers as a Smith chart takes them: neither following peaks nor references.
pub open spec fn smith_markers(markers: Seq<Marker>, smith: bool) -> Seq<Marker> {
    if smith {
        markers.map_values(|marker: Marker| Marker { auto_peak: false, reference: false, ..marker })
    } else {
        markers
    }
}

/// Taking markers to a Smith chart twice changes nothing more.
pub proof fn lemma_smith_markers_settle(markers: Seq<Marker>, smith: bool)
    ensures
        smith_markers(smith_markers(markers, smith), smith) == smith_markers(markers, smith),
{
    assert(smith_markers(smith_markers(markers, smith), smith) =~= smith_markers(markers, smith));
}

/// The target as a Smith chart takes it.
pub open spec fn smith_target(target: MarkerTarget, smith: bool) -> MarkerTarget {
    if smith && (target is Maximum || target is Minimum) {
        MarkerTarget::Current
    } else {
        target
    }
}

/// Whether a name can be restored: a kind, a column and a format that exist.
pub open spec fn known_key(key: KeyModel) -> bool {
    &&& key.1 < 3
    &&& key.2 < 3
    &&& (key.0 == ""@ || key.0 == "ri"@ || key.0 == "ma"@ || key.0 == "z"@ || key.0 == "loss"@
        || key.0 == "vswr"@ || key.0 == "delay"@)
}

/// Whether an entry can be restored.
pub open spec fn known_overlay(entry: OverlayVisibilityConfig) -> bool {
    known_key(entry_model(entry).0)
}

/// The entries that are restored from the first `count` of a list. A later
/// one wins.
pub open spec fn restored_entries(entries: Seq<OverlayVisibilityConfig>, count: int) -> Seq<
    (KeyModel, bool),
>
    decreases count,
{
    if count <= 0 {
        seq![]
    } else {
        let kept = restored_entries(entries, count - 1);
        let next = entries[count - 1];
        if known_overlay(next) {
            entry_set(kept, entry_model(next).0, next.visible)
        } else {
            kept
        }
    }
}

/// Markers that follow the peak, moved to it.
pub open spec fn peaked(markers: Seq<Marker>, peak: Option<Real>) -> Seq<Marker> {
    match peak {
        Some(frequency) => markers.map_values(
            |marker: Marker|
                if marker.auto_peak {
                    Marker { frequency_hz: frequency, ..marker }
                } else {
                    marker
                },
        ),
        None => markers,
    }
}

/// Markers snapped to the points of a new grid. `distances` holds each
/// marker's distances to the points.
pub open spec fn snapped(
    markers: Seq<Marker>,
    points: Seq<PointModel>,
    distances: Seq<Vec<Real>>,
) -> Seq<Marker> {
    Seq::new(
        markers.len(),
        |i: int|
            match nearest_index(
                points,
                markers[i].frequency_hz,
                if i < distances.len() {
                    distances[i]@
                } else {
                    seq![]
                },
            ) {
                Some(index) => Marker { frequency_hz: points[index].freq_hz, ..markers[i] },
                None => markers[i],
            },
    )
}

/// Zero.
pub open spec fn zero() -> Real {
    Real { bits: 0 }
}

impl AnalysisTools {
    /// The overlay settings stand in order, each name once.
    pub open spec fn wf(self) -> bool {
        in_order(entry_models(self.overlay_visibility@))
    }

    /// The rows that the target stands for, on the grid of `trace`.
    pub open spec fn target_model(self, trace: DataModel) -> Option<Seq<Seq<Real>>> {
        if self.target is Current {
            Some(rows_of(trace.points))
        } else if self.latest is None || !on_same_grid(self.latest->0.data@, trace) {
            None
        } else {
            match self.target {
                MarkerTarget::Hold => if self.hold {
                    optional_rows(self.held)
                } else {
                    None
                },
                MarkerTarget::Maximum => if self.max_hold && !self.smith {
                    optional_rows(self.maxima)
                } else {
                    None
                },
                _ => if self.min_hold && !self.smith {
                    optional_rows(self.minima)
                } else {
                    None
                },
            }
        }
    }

    /// What a search finds on the target.
    pub open spec fn extremum_model(self, trace: DataModel, action: Search, frequency: Real) -> Option<
        Real,
    > {
        found(trace.points, self.target_model(trace), self.column as int, action, frequency)
    }

    /// Whether a sweep continues the latest one: same session, same conditions
    /// and same grid.
    pub open spec fn continues(self, snapshot: CompletedSweep) -> bool {
        &&& self.latest is Some
        &&& self.latest->0.session_id == snapshot.session_id
        &&& self.latest->0.settings@ == snapshot.settings@
        &&& on_same_grid(self.latest->0.data@, snapshot.data@)
    }

    /// The column after a sweep that does not continue the latest one.
    pub open spec fn column_after(self, data: DataModel) -> usize {
        if match self.latest {
            None => !self.restored_column,
            Some(old) => old.data@.mode != data.mode || old.data@.format != data.format,
        } {
            match self.fixed_column {
                Some(column) => column,
                None => if data.format == "ma"@ {
                    1
                } else {
                    0
                },
            }
        } else {
            self.column
        }
    }

    /// Everything but the measurements stays as it is.
    pub open spec fn same_setup(self, other: Self) -> bool {
        &&& self.hold == other.hold
        &&& self.max_hold == other.max_hold
        &&& self.min_hold == other.min_hold
        &&& self.next_id == other.next_id
        &&& self.trace_id == other.trace_id
        &&& self.fixed_column == other.fixed_column
        &&& self.target == other.target
        &&& self.smith == other.smith
        &&& self.language == other.language
        &&& self.overlay_visibility == other.overlay_visibility
    }

    /// Forget the held rows and both envelopes.
    pub fn reset_holds(&mut self)
        ensures
            *final(self) == (AnalysisTools { held: None, maxima: None, minima: None, ..*old(self) }),
    {
        self.held = None;
        self.maxima = None;
        self.minima = None;
    }

    /// Keep definitions, but never combine data across a calibration write.
    pub fn invalidate_measurements(&mut self)
        ensures
            final(self).latest is None,
            final(self).held is None && final(self).maxima is None && final(self).minima is None,
            final(self).rendered_overlays@.len() == 0,
            final(self).restored_column,
            final(self).same_setup(*old(self)),
            final(self).markers == old(self).markers,
            final(self).column == old(self).column,
    {
        self.latest = None;
        self.reset_holds();
        self.rendered_overlays.clear();
        self.restored_column = true;
    }

    /// Whether these are the user's settings.
    pub open spec fn is_saved_as(self, config: AnalysisConfig) -> bool {
        &&& config.markers@ == self.markers@
        &&& config.next_id == self.next_id
        &&& config.hold == self.hold
        &&& config.max_hold == self.max_hold
        &&& config.min_hold == self.min_hold
        &&& config.column == self.column
        &&& config.target == self.target
        &&& entry_models(config.overlay_visibility@) == entry_models(self.overlay_visibility@)
    }

    /// The user's settings, without any measurement.
    pub fn config(&self) -> (config: AnalysisConfig)
        ensures
            self.is_saved_as(config),
    {
        AnalysisConfig {
            markers: copied(&self.markers),
            next_id: self.next_id,
            hold: self.hold,
            max_hold: self.max_hold,
            min_hold: self.min_hold,
            column: self.column,
            target: self.target,
            overlay_visibility: copy_entries(&self.overlay_visibility),
        }
    }

    pub fn set_trace_id(&mut self, trace_id: u64)
        ensures
            *final(self) == (AnalysisTools { trace_id, ..*old(self) }),
    {
        self.trace_id = trace_id;
    }

    /// Tie the markers to one column, or let the user choose.
    pub fn set_column(&mut self, column: Option<usize>)
        ensures
            *final(self) == (AnalysisTools {
                fixed_column: column,
                column: match column {
                    Some(column) => column,
                    None => old(self).column,
                },
                ..*old(self)
            }),
    {
        self.fixed_column = column;
        if let Some(column) = column {
            self.column = column;
        }
    }

    pub fn set_language(&mut self, language: Language)
        ensures
            *final(self) == (AnalysisTools { language, ..*old(self) }),
    {
        self.language = language;
    }

    /// Switch between scalar and Smith views. Scalar envelopes and differences
    /// have no place on a Smith chart.
    pub fn set_smith(&mut self, smith: bool)
        ensures
            final(self).smith == smith,
            final(self).target == smith_target(old(self).target, smith),
            final(self).markers@ == smith_markers(old(self).markers@, smith),
            *final(self) == (AnalysisTools {
                smith,
                target: final(self).target,
                markers: final(self).markers,
                ..*old(self)
            }),
    {
        self.smith = smith;
        if smith {
            if matches!(self.target, MarkerTarget::Maximum | MarkerTarget::Minimum) {
                self.target = MarkerTarget::Current;
            }
            let mut index: usize = 0;
            while index < self.markers.len()
                invariant
                    index <= self.markers@.len() == old(self).markers@.len(),
                    smith,
                    self.smith == smith,
                    self.target == smith_target(old(self).target, smith),
                    *self == (AnalysisTools {
                        smith,
                        target: self.target,
                        markers: self.markers,
                        ..*old(self)
                    }),
                    forall|i: int|
                        0 <= i < self.markers@.len() ==> #[trigger] self.markers@[i] == if i
                            < index {
                            Marker {
                                auto_peak: false,
                                reference: false,
                                ..old(self).markers@[i]
                            }
                        } else {
                            old(self).markers@[i]
                        },
                decreases self.markers@.len() - index,
            {
                let mut marker: Marker = self.markers[index];
                marker.auto_peak = false;
                marker.reference = false;
                self.markers.set(index, marker);
                index = index + 1;
            }
            assert(self.markers@ =~= smith_markers(old(self).markers@, smith));
        }
    }

    fn target_rows<'a>(&'a self, trace: &'a SweepData) -> (rows: Option<TargetRows<'a>>)
        ensures
            match rows {
                Some(rows) => self.target_model(trace@) == Some(rows.rows()),
                None => self.target_model(trace@) is None,
            },
    {
        if self.target == MarkerTarget::Current {
            return Some(TargetRows::Current(trace));
        }
        match &self.latest {
            Some(snapshot) => {
                if !same_grid(&snapshot.data, trace) {
                    return None;
                }
            },
            None => {
                return None;
            },
        }
        let stored = match self.target {
            MarkerTarget::Hold => {
                if self.hold {
                    &self.held
                } else {
                    return None;
                }
            },
            MarkerTarget::Maximum => {
                if self.max_hold && !self.smith {
                    &self.maxima
                } else {
                    return None;
                }
            },
            _ => {
                if self.min_hold && !self.smith {
                    &self.minima
                } else {
                    return None;
                }
            },
        };
        match stored {
            Some(rows) => Some(TargetRows::Stored(rows)),
            None => None,
        }
    }

    fn extremum(&self, trace: &SweepData, action: Search, frequency: Real) -> (result: Option<Real>)
        ensures
            result == self.extremum_model(trace@, action, frequency),
    {
        match self.target_rows(trace) {
            Some(rows) => search_rows(trace, &rows, self.column, action, frequency),
            None => None,
        }
    }

    /// Move the markers that follow the peak. A Smith chart has none.
    pub fn refresh_auto_peaks(&mut self, trace: &SweepData)
        ensures
            *final(self) == (AnalysisTools { markers: final(self).markers, ..*old(self) }),
            final(self).markers@ == if old(self).smith {
                old(self).markers@
            } else {
                peaked(
                    old(self).markers@,
                    old(self).extremum_model(trace@, Search::Maximum, zero()),
                )
            },
    {
        if self.smith {
            return;
        }
        let peak = self.extremum(trace, Search::Maximum, Real { bits: 0 });
        if let Some(frequency) = peak {
            let mut index: usize = 0;
            while index < self.markers.len()
                invariant
                    index <= self.markers@.len() == old(self).markers@.len(),
                    *self == (AnalysisTools { markers: self.markers, ..*old(self) }),
                    forall|i: int|
                        0 <= i < self.markers@.len() ==> #[trigger] self.markers@[i] == if i < index
                            && old(self).markers@[i].auto_peak {
                            Marker { frequency_hz: frequency, ..old(self).markers@[i] }
                        } else {
                            old(self).markers@[i]
                        },
                decreases self.markers@.len() - index,
            {
                let mut marker: Marker = self.markers[index];
                if marker.auto_peak {
                    marker.frequency_hz = frequency;
                    self.markers.set(index, marker);
                }
                index = index + 1;
            }
            assert(self.markers@ =~= peaked(old(self).markers@, peak));
        }
    }

    /// Freeze, raise or lower the holds that are switched on.
    pub fn refresh_holds(&mut self, trace: &SweepData)
        ensures
            *final(self) == (AnalysisTools {
                held: final(self).held,
                maxima: final(self).maxima,
                minima: final(self).minima,
                ..*old(self)
            }),
            optional_rows(final(self).held) == hold_after(
                optional_rows(old(self).held),
                old(self).hold,
                rows_of(trace@.points),
            ),
            optional_rows(final(self).maxima) == envelope_after(
                optional_rows(old(self).maxima),
                old(self).max_hold,
                rows_of(trace@.points),
                true,
            ),
            optional_rows(final(self).minima) == envelope_after(
                optional_rows(old(self).minima),
                old(self).min_hold,
                rows_of(trace@.points),
                false,
            ),
    {
        if !self.hold {
            self.held = None;
        } else if self.held.is_none() {
            self.held = Some(values(trace));
        }
        update_envelope(&mut self.maxima, self.max_hold, trace, true);
        update_envelope(&mut self.minima, self.min_hold, trace, false);
    }

    /// Whether this is the analysis after one complete sweep. Holds and markers
    /// carry on where the sweep continues the latest one. Otherwise holds start
    /// anew and markers go to the nearest points of the new grid.
    pub open spec fn is_observed(
        self,
        before: Self,
        snapshot: Arc<CompletedSweep>,
        distances: Seq<Vec<Real>>,
    ) -> bool {
        let continued = before.continues(*snapshot);
        let rows = rows_of(snapshot.data@.points);
        let markers = if continued {
            before.markers@
        } else {
            snapped(before.markers@, snapshot.data@.points, distances)
        };
        &&& self.same_setup(before)
        &&& self.rendered_overlays == before.rendered_overlays
        &&& self.latest == Some(snapshot)
        &&& !self.restored_column
        &&& self.column == if continued {
            before.column
        } else {
            before.column_after(snapshot.data@)
        }
        &&& optional_rows(self.held) == hold_after(
            if continued {
                optional_rows(before.held)
            } else {
                None
            },
            before.hold,
            rows,
        )
        &&& optional_rows(self.maxima) == envelope_after(
            if continued {
                optional_rows(before.maxima)
            } else {
                None
            },
            before.max_hold,
            rows,
            true,
        )
        &&& optional_rows(self.minima) == envelope_after(
            if continued {
                optional_rows(before.minima)
            } else {
                None
            },
            before.min_hold,
            rows,
            false,
        )
        &&& self.markers@ == if before.smith {
            markers
        } else {
            peaked(markers, self.extremum_model(snapshot.data@, Search::Maximum, zero()))
        }
    }

    /// Take one complete measured sweep, never partial data. `distances` holds
    /// each marker's distances to the sweep's points.
    pub fn observe(&mut self, snapshot: &Arc<CompletedSweep>, distances: &Vec<Vec<Real>>)
        ensures
            final(self).is_observed(*old(self), *snapshot, distances@),
    {
        let trace = &snapshot.data;
        let continued = match &self.latest {
            Some(latest) => {
                latest.session_id == snapshot.session_id && latest.settings.same(
                    &snapshot.settings,
                ) && same_grid(&latest.data, trace)
            },
            None => false,
        };
        if !continued {
            self.reset_holds();
            let choose_column = match &self.latest {
                Some(latest) => latest.data.mode != trace.mode || !same_text(
                    latest.data.format.as_str(),
                    trace.format.as_str(),
                ),
                None => !self.restored_column,
            };
            if choose_column {
                self.column = match self.fixed_column {
                    Some(column) => column,
                    None => {
                        if same_text(trace.format.as_str(), "ma") {
                            1
                        } else {
                            0
                        }
                    },
                };
            }
            self.snap(trace, distances);
        }
        self.refresh_holds(trace);
        self.latest = Some(snapshot.clone());
        self.restored_column = false;
        self.refresh_auto_peaks(trace);
    }

    /// Move every marker to the nearest point.
    fn snap(&mut self, trace: &SweepData, distances: &Vec<Vec<Real>>)
        ensures
            *final(self) == (AnalysisTools { markers: final(self).markers, ..*old(self) }),
            final(self).markers@ == snapped(old(self).markers@, trace@.points, distances@),
    {
        let nowhere: Vec<Real> = Vec::new();
        assert(nowhere@ =~= Seq::<Real>::empty());
        let ghost after = snapped(old(self).markers@, trace@.points, distances@);
        let mut index: usize = 0;
        while index < self.markers.len()
            invariant
                index <= self.markers@.len() == old(self).markers@.len(),
                nowhere@ == Seq::<Real>::empty(),
                after == snapped(old(self).markers@, trace@.points, distances@),
                *self == (AnalysisTools { markers: self.markers, ..*old(self) }),
                forall|i: int|
                    0 <= i < self.markers@.len() ==> #[trigger] self.markers@[i] == if i < index {
                        after[i]
                    } else {
                        old(self).markers@[i]
                    },
            decreases self.markers@.len() - index,
        {
            let mut marker: Marker = self.markers[index];
            let apart: &Vec<Real> = if index < distances.len() {
                &distances[index]
            } else {
                &nowhere
            };
            if let Some(at) = nearest(trace, marker.frequency_hz, apart) {
                assert(trace@.points[at as int] == trace.points@[at as int]@);
                marker.frequency_hz = trace.points[at].freq_hz;
                self.markers.set(index, marker);
            }
            index = index + 1;
        }
        assert(self.markers@ =~= after);
    }
}

fn copy_entries(entries: &Vec<OverlayVisibilityConfig>) -> (copy: Vec<OverlayVisibilityConfig>)
    ensures
        entry_models(copy@) == entry_models(entries@),
{
    let mut copy: Vec<OverlayVisibilityConfig> = Vec::new();
    let mut index: usize = 0;
    while index < entries.len()
        invariant
            index <= entries@.len(),
            copy@.len() == index,
            forall|i: int|
                0 <= i < index ==> entry_model(#[trigger] copy@[i]) == entry_model(entries@[i]),
        decreases entries@.len() - index,
    {
        let entry = &entries[index];
        copy.push(
            OverlayVisibilityConfig {
                format: entry.format.clone(),
                kind: entry.kind,
                column: entry.column,
                visible: entry.visible,
            },
        );
        index = index + 1;
    }
    assert(entry_models(copy@) =~= entry_models(entries@));
    copy
}

/// Set what is shown of one name.
fn set_entry(
    entries: &mut Vec<OverlayVisibilityConfig>,
    format: &str,
    kind: usize,
    column: usize,
    visible: bool,
)
    requires
        in_order(entry_models(old(entries)@)),
    ensures
        in_order(entry_models(final(entries)@)),
        entry_models(final(entries)@) == entry_set(
            entry_models(old(entries)@),
            (format@, kind, column),
            visible,
        ),
{
    let ghost all = entry_models(entries@);
    let ghost key = (format@, kind, column);
    proof {
        law_entry_set(all, key, visible);
    }
    let mut index: usize = 0;
    assert(all.skip(0) =~= all);
    assert(all.take(0) + entry_set(all.skip(0), key, visible) =~= entry_set(all, key, visible));
    while index < entries.len()
        invariant
            index <= entries@.len(),
            entries@ == old(entries)@,
            all == entry_models(entries@),
            key == (format@, kind, column),
            in_order(entry_set(all, key, visible)),
            entry_set(all, key, visible) == all.take(index as int) + entry_set(
                all.skip(index as int),
                key,
                visible,
            ),
        decreases entries@.len() - index,
    {
        let ghost rest = all.skip(index as int);
        assert(rest[0] == all[index as int]);
        assert(all[index as int] == entry_model(entries@[index as int]));
        if entries[index].kind == kind && entries[index].column == column && same_text(
            entries[index].format.as_str(),
            format,
        ) {
            entries[index].visible = visible;
            assert(entry_set(rest, key, visible) == rest.update(0, (key, visible)));
            assert(entry_models(entries@) =~= entry_set(all, key, visible));
            return;
        }
        assert(rest[0].0 != key);
        if key_precedes(
            format,
            kind,
            column,
            entries[index].format.as_str(),
            entries[index].kind,
            entries[index].column,
        ) {
            entries.insert(
                index,
                OverlayVisibilityConfig { format: format.to_owned(), kind, column, visible },
            );
            assert(entry_set(rest, key, visible) == seq![(key, visible)] + rest);
            assert(entry_models(entries@) =~= entry_set(all, key, visible));
            return;
        }
        assert(rest.skip(1) =~= all.skip(index + 1));
        assert(all.take(index as int) + (seq![rest[0]] + entry_set(rest.skip(1), key, visible))
            =~= all.take(index + 1) + entry_set(all.skip(index + 1), key, visible));
        index = index + 1;
    }
    assert(all.skip(index as int) =~= seq![]);
    assert(all.take(index as int) =~= all);
    entries.push(OverlayVisibilityConfig { format: format.to_owned(), kind, column, visible });
    assert(entry_models(entries@) =~= entry_set(all, key, visible));
}

/// Whether a name is shown.
fn is_shown(
    entries: &Vec<OverlayVisibilityConfig>,
    format: &str,
    kind: usize,
    column: usize,
) -> (visible: bool)
    ensures
        visible == shown(entry_models(entries@), (format@, kind, column)),
{
    let ghost all = entry_models(entries@);
    let ghost key = (format@, kind, column);
    let mut index: usize = 0;
    assert(all.skip(0) =~= all);
    while index < entries.len()
        invariant
            index <= entries@.len(),
            all == entry_models(entries@),
            key == (format@, kind, column),
            shown(all, key) == shown(all.skip(index as int), key),
        decreases entries@.len() - index,
    {
        let ghost rest = all.skip(index as int);
        assert(rest[0] == all[index as int]);
        assert(all[index as int] == entry_model(entries@[index as int]));
        if entries[index].kind == kind && entries[index].column == column && same_text(
            entries[index].format.as_str(),
            format,
        ) {
            return entries[index].visible;
        }
        assert(rest.skip(1) =~= all.skip(index + 1));
        index = index + 1;
    }
    true
}

/// Colour of a curve, as premultiplied red, green, blue and alpha.
#[derive(Debug, Clone, Copy, PartialEq, Eq, Structural)]
pub struct Color {
    pub r: u8,
    pub g: u8,
    pub b: u8,
    pub a: u8,
}

/// A curve on a chart.
#[derive(Debug)]
pub struct Series {
    pub name: Caption,
    pub color: Color,
    pub visible: bool,
    pub points: Vec<(Real, Real)>,
}

/// What a [`Series`] stands for.
#[verifier::ext_equal]
pub struct SeriesModel {
    pub name: Caption,
    pub color: Color,
    pub visible: bool,
    pub points: Seq<(Real, Real)>,
}

impl View for Series {
    type V = SeriesModel;

    open spec fn view(&self) -> SeriesModel {
        SeriesModel {
            name: self.name,
            color: self.color,
            visible: self.visible,
            points: self.points@,
        }
    }
}

/// What rows stand for, where there are some.
pub open spec fn data_model(data: Option<SweepData>) -> Option<DataModel> {
    match data {
        Some(data) => Some(data@),
        None => None,
    }
}

/// What a list of curves stands for.
pub open spec fn series_models(series: Seq<Series>) -> Seq<SeriesModel> {
    series.map_values(|curve: Series| curve@)
}

/// A row's reading, or a NaN where the row has none.
pub open spec fn reading_or_nan(row: Seq<Real>, column: int) -> Real {
    if 0 <= column < row.len() {
        row[column]
    } else {
        Real::nan()
    }
}

/// One column of stored rows over the frequencies of a sweep.
pub open spec fn overlay_points(points: Seq<PointModel>, rows: Seq<Seq<Real>>, column: int) -> Seq<
    (Real, Real),
> {
    Seq::new(
        if points.len() < rows.len() {
            points.len()
        } else {
            rows.len()
        },
        |i: int| (points[i].freq_hz, reading_or_nan(rows[i], column)),
    )
}

/// Colour of an overlay's kind.
pub open spec fn overlay_color(kind: int) -> Color {
    if kind == 0 {
        Color { r: 0x28, g: 0x99, b: 0xd0, a: 0xff }
    } else if kind == 1 {
        Color { r: 0xe0, g: 0x65, b: 0x40, a: 0xff }
    } else {
        Color { r: 0x92, g: 0x68, b: 0xce, a: 0xff }
    }
}

/// The curves of one kind of overlay.
pub open spec fn kind_series(
    kind: usize,
    rows: Option<Seq<Seq<Real>>>,
    columns: Seq<usize>,
    data: DataModel,
    entries: Seq<(KeyModel, bool)>,
    language: Language,
) -> Seq<SeriesModel> {
    match rows {
        None => seq![],
        Some(rows) => columns.map_values(
            |column: usize|
                SeriesModel {
                    name: overlay_caption(kind, data.format, column, language),
                    color: overlay_color(kind as int),
                    visible: shown(entries, (data.format, kind, column)),
                    points: overlay_points(data.points, rows, column as int),
                },
        ),
    }
}

/// The names of one kind of overlay's curves.
pub open spec fn kind_keys(
    kind: usize,
    rows: Option<Seq<Seq<Real>>>,
    columns: Seq<usize>,
    format: Seq<char>,
) -> Seq<KeyModel> {
    match rows {
        None => seq![],
        Some(_) => columns.map_values(|column: usize| (format, kind, column)),
    }
}

/// What names of drawn overlays stand for.
pub open spec fn key_models(keys: Seq<OverlayKey>) -> Seq<KeyModel> {
    keys.map_values(|key: OverlayKey| key@)
}

/// The rows of an overlay that is switched on.
pub open spec fn enabled_rows(enabled: bool, rows: Option<Vec<Vec<Real>>>) -> Option<
    Seq<Seq<Real>>,
> {
    if enabled {
        optional_rows(rows)
    } else {
        None
    }
}

/// How many of a legend's curves have a name.
pub open spec fn legend_length(keys: Seq<KeyModel>, series: Seq<SeriesModel>) -> int {
    if series.len() < keys.len() {
        series.len() as int
    } else {
        keys.len() as int
    }
}

/// The entries after the legend's first `count` curves were taken over.
pub open spec fn applied(
    entries: Seq<(KeyModel, bool)>,
    keys: Seq<KeyModel>,
    series: Seq<SeriesModel>,
    count: int,
) -> Seq<(KeyModel, bool)>
    decreases count,
{
    if count <= 0 {
        entries
    } else {
        entry_set(
            applied(entries, keys, series, count - 1),
            keys[count - 1],
            series[count - 1].visible,
        )
    }
}

fn column_points(trace: &SweepData, rows: &Vec<Vec<Real>>, column: usize) -> (points: Vec<
    (Real, Real),
>)
    ensures
        points@ == overlay_points(trace@.points, row_views(rows@), column as int),
{
    let mut points: Vec<(Real, Real)> = Vec::new();
    let mut index: usize = 0;
    while index < trace.points.len() && index < rows.len()
        invariant
            index <= trace.points@.len(),
            index <= rows@.len(),
            points@.len() == index,
            forall|i: int|
                0 <= i < index ==> #[trigger] points@[i] == (
                    trace.points@[i].freq_hz,
                    reading_or_nan(rows@[i]@, column as int),
                ),
        decreases trace.points@.len() - index,
    {
        let value: Real = if column < rows[index].len() {
            rows[index][column]
        } else {
            Real { bits: 0x7ff8_0000_0000_0000 }
        };
        points.push((trace.points[index].freq_hz, value));
        index = index + 1;
    }
    assert(points@ =~= overlay_points(trace@.points, row_views(rows@), column as int));
    points
}

/// Add the curves of one kind, and their names.
fn push_kind(
    kind: usize,
    color: Color,
    rows: &Vec<Vec<Real>>,
    columns: &Vec<usize>,
    trace: &SweepData,
    entries: &Vec<OverlayVisibilityConfig>,
    language: Language,
    keys: &mut Vec<OverlayKey>,
    series: &mut Vec<Series>,
)
    requires
        kind < 3,
        color == overlay_color(kind as int),
    ensures
        series_models(final(series)@) == series_models(old(series)@) + kind_series(
            kind,
            Some(row_views(rows@)),
            columns@,
            trace@,
            entry_models(entries@),
            language,
        ),
        key_models(final(keys)@) == key_models(old(keys)@) + kind_keys(
            kind,
            Some(row_views(rows@)),
            columns@,
            trace.format@,
        ),
{
    let ghost curves = kind_series(
        kind,
        Some(row_views(rows@)),
        columns@,
        trace@,
        entry_models(entries@),
        language,
    );
    let ghost names = kind_keys(kind, Some(row_views(rows@)), columns@, trace.format@);
    let mut index: usize = 0;
    assert(series_models(series@) =~= series_models(old(series)@) + curves.take(0));
    assert(key_models(keys@) =~= key_models(old(keys)@) + names.take(0));
    while index < columns.len()
        invariant
            kind < 3,
            color == overlay_color(kind as int),
            index <= columns@.len(),
            curves == kind_series(
                kind,
                Some(row_views(rows@)),
                columns@,
                trace@,
                entry_models(entries@),
                language,
            ),
            names == kind_keys(kind, Some(row_views(rows@)), columns@, trace.format@),
            series_models(series@) == series_models(old(series)@) + curves.take(index as int),
            key_models(keys@) == key_models(old(keys)@) + names.take(index as int),
        decreases columns@.len() - index,
    {
        let column: usize = columns[index];
        let visible = is_shown(entries, trace.format.as_str(), kind, column);
        let key = OverlayKey { format: trace.format.clone(), kind, column };
        assert(key@ == names[index as int]);
        let ghost named = keys@;
        keys.push(key);
        assert(key_models(keys@) =~= key_models(named).push(names[index as int]));
        let curve = Series {
            name: overlay_name(kind, trace.format.as_str(), column, language),
            color,
            visible,
            points: column_points(trace, rows, column),
        };
        assert(curve@ =~= curves[index as int]);
        let ghost drawn = series@;
        series.push(curve);
        assert(series_models(series@) =~= series_models(drawn).push(curves[index as int]));
        assert(curves.take(index + 1) =~= curves.take(index as int).push(curves[index as int]));
        assert(names.take(index + 1) =~= names.take(index as int).push(names[index as int]));
        assert(series_models(series@) =~= series_models(old(series)@) + curves.take(index + 1));
        assert(key_models(keys@) =~= key_models(old(keys)@) + names.take(index + 1));
        index = index + 1;
    }
    assert(curves.take(index as int) =~= curves);
    assert(names.take(index as int) =~= names);
}

impl AnalysisTools {
    /// The held sweep, as frequencies of the latest and frozen rows.
    pub open spec fn held_model(self) -> Option<DataModel> {
        if self.hold && self.held is Some && self.latest is Some {
            let data = self.latest->0.data@;
            let rows = row_views(self.held->0@);
            Some(
                DataModel {
                    mode: data.mode,
                    format: data.format,
                    points: Seq::new(
                        data.points.len(),
                        |i: int|
                            PointModel {
                                freq_hz: data.points[i].freq_hz,
                                values: if i < rows.len() {
                                    rows[i]
                                } else {
                                    data.points[i].values
                                },
                            },
                    ),
                },
            )
        } else {
            None
        }
    }

    /// Frozen measured rows remain valid complex data. Scalar envelopes are
    /// deliberately excluded from this Smith-chart snapshot.
    pub fn held_trace(&self) -> (trace: Option<SweepData>)
        ensures
            data_model(trace) == self.held_model(),
    {
        if !self.hold {
            return None;
        }
        let Some(rows) = &self.held else {
            return None;
        };
        let Some(latest) = &self.latest else {
            return None;
        };
        let data = &latest.data;
        let mut points: Vec<SweepPoint> = Vec::new();
        let ghost held = self.held_model()->0.points;
        let mut index: usize = 0;
        while index < data.points.len()
            invariant
                index <= data.points@.len(),
                points@.len() == index,
                held.len() == data.points@.len(),
                forall|i: int|
                    0 <= i < held.len() ==> #[trigger] held[i] == (PointModel {
                        freq_hz: data.points@[i].freq_hz,
                        values: if i < rows@.len() {
                            rows@[i]@
                        } else {
                            data.points@[i].values@
                        },
                    }),
                forall|i: int| 0 <= i < index ==> (#[trigger] points@[i])@ == held[i],
            decreases data.points@.len() - index,
        {
            let values: Vec<Real> = if index < rows.len() {
                copied(&rows[index])
            } else {
                copied(&data.points[index].values)
            };
            points.push(SweepPoint { freq_hz: data.points[index].freq_hz, values });
            index = index + 1;
        }
        let trace = SweepData { mode: data.mode, format: data.format.clone(), points };
        assert(trace@.points =~= held);
        Some(trace)
    }

    /// The measured rows that Smith markers stand on.
    pub open spec fn marker_model(self) -> Option<DataModel> {
        match self.target {
            MarkerTarget::Current => match self.latest {
                Some(latest) => Some(latest.data@),
                None => None,
            },
            MarkerTarget::Hold => self.held_model(),
            _ => None,
        }
    }

    /// Smith marker positions use measured rows from the explicit target.
    /// Scalar envelopes are not complex measurements.
    pub fn marker_trace(&self) -> (trace: Option<SweepData>)
        ensures
            data_model(trace) == self.marker_model(),
    {
        match self.target {
            MarkerTarget::Current => match &self.latest {
                Some(latest) => Some(copy_data(&latest.data)),
                None => None,
            },
            MarkerTarget::Hold => self.held_trace(),
            MarkerTarget::Maximum | MarkerTarget::Minimum => None,
        }
    }

    pub fn markers(&self) -> (markers: &Vec<Marker>)
        ensures
            *markers == self.markers,
    {
        &self.markers
    }

    /// The markers, for a chart that lets the user drag them.
    pub fn markers_mut(&mut self) -> (markers: &mut Vec<Marker>)
        ensures
            *markers == old(self).markers,
            *final(self) == (AnalysisTools { markers: *final(markers), ..*old(self) }),
    {
        &mut self.markers
    }

    /// Scalar marker interaction uses the completed target, never a preview.
    pub fn marker_frequencies(&self, trace: &SweepData) -> (frequencies: Vec<Real>)
        ensures
            frequencies@ == markable(
                trace@.points,
                self.target_model(trace@),
                self.column as int,
                trace@.points.len() as int,
            ),
    {
        let mut frequencies: Vec<Real> = Vec::new();
        let Some(rows) = self.target_rows(trace) else {
            proof {
                lemma_nothing_markable(trace@.points, self.column as int, trace@.points.len() as int);
            }
            return frequencies;
        };
        let ghost model = rows.rows();
        let mut index: usize = 0;
        while index < trace.points.len()
            invariant
                index <= trace.points@.len(),
                model == rows.rows(),
                self.target_model(trace@) == Some(model),
                frequencies@ == markable(
                    trace@.points,
                    Some(model),
                    self.column as int,
                    index as int,
                ),
            decreases trace.points@.len() - index,
        {
            assert(trace@.points[index as int] == trace.points@[index as int]@);
            let sampled: Real = trace.points[index].freq_hz;
            if let Some(value) = rows.reading(index, self.column) {
                if sampled.is_finite() && value.is_finite() {
                    frequencies.push(sampled);
                }
            }
            index = index + 1;
        }
        frequencies
    }

    /// Scalar overlays for the requested raw columns. The caller chooses
    /// columns matching its current display and leaves export data untouched.
    pub fn overlay_series(&mut self, columns: &Vec<usize>) -> (series: Vec<Series>)
        ensures
            final(self).has_drawn(*old(self), columns@, series_models(series@)),
    {
        self.rendered_overlays.clear();
        let mut series: Vec<Series> = Vec::new();
        let mut keys: Vec<OverlayKey> = Vec::new();
        let Some(latest) = &self.latest else {
            return series;
        };
        let data = &latest.data;
        assert(series_models(series@) =~= seq![]);
        assert(key_models(keys@) =~= seq![]);
        if self.hold {
            if let Some(rows) = &self.held {
                push_kind(
                    0,
                    Color { r: 0x28, g: 0x99, b: 0xd0, a: 0xff },
                    rows,
                    columns,
                    data,
                    &self.overlay_visibility,
                    self.language,
                    &mut keys,
                    &mut series,
                );
            }
        }
        if self.max_hold {
            if let Some(rows) = &self.maxima {
                push_kind(
                    1,
                    Color { r: 0xe0, g: 0x65, b: 0x40, a: 0xff },
                    rows,
                    columns,
                    data,
                    &self.overlay_visibility,
                    self.language,
                    &mut keys,
                    &mut series,
                );
            }
        }
        if self.min_hold {
            if let Some(rows) = &self.minima {
                push_kind(
                    2,
                    Color { r: 0x92, g: 0x68, b: 0xce, a: 0xff },
                    rows,
                    columns,
                    data,
                    &self.overlay_visibility,
                    self.language,
                    &mut keys,
                    &mut series,
                );
            }
        }
        assert(series_models(series@) =~= old(self).overlay_model(data@, columns@));
        assert(key_models(keys@) =~= old(self).overlay_keys(data@.format, columns@));
        self.rendered_overlays = keys;
        series
    }

    /// The curves of all overlays that are switched on.
    pub open spec fn overlay_model(self, data: DataModel, columns: Seq<usize>) -> Seq<SeriesModel> {
        let entries = entry_models(self.overlay_visibility@);
        kind_series(
            0,
            enabled_rows(self.hold, self.held),
            columns,
            data,
            entries,
            self.language,
        ) + kind_series(
            1,
            enabled_rows(self.max_hold, self.maxima),
            columns,
            data,
            entries,
            self.language,
        ) + kind_series(
            2,
            enabled_rows(self.min_hold, self.minima),
            columns,
            data,
            entries,
            self.language,
        )
    }

    /// The names of these curves.
    pub open spec fn overlay_keys(self, format: Seq<char>, columns: Seq<usize>) -> Seq<KeyModel> {
        kind_keys(0, enabled_rows(self.hold, self.held), columns, format) + kind_keys(
            1,
            enabled_rows(self.max_hold, self.maxima),
            columns,
            format,
        ) + kind_keys(2, enabled_rows(self.min_hold, self.minima), columns, format)
    }

    /// Whether this is a panel that drew these curves and kept their names.
    pub open spec fn has_drawn(
        self,
        before: Self,
        columns: Seq<usize>,
        series: Seq<SeriesModel>,
    ) -> bool {
        &&& self == (AnalysisTools { rendered_overlays: self.rendered_overlays, ..before })
        &&& match before.latest {
            None => series.len() == 0 && self.rendered_overlays@.len() == 0,
            Some(latest) => {
                &&& series == before.overlay_model(latest.data@, columns)
                &&& key_models(self.rendered_overlays@) == before.overlay_keys(
                    latest.data@.format,
                    columns,
                )
            },
        }
    }

    /// Whether this is a panel that took over a legend's edits.
    pub open spec fn has_applied(self, before: Self, series: Seq<SeriesModel>) -> bool {
        &&& self.wf()
        &&& self == (AnalysisTools { overlay_visibility: self.overlay_visibility, ..before })
        &&& entry_models(self.overlay_visibility@) == applied(
            entry_models(before.overlay_visibility@),
            key_models(before.rendered_overlays@),
            series,
            legend_length(key_models(before.rendered_overlays@), series),
        )
    }

    /// Take over legend edits from the curves that were drawn last.
    pub fn apply_overlay_visibility(&mut self, series: &Vec<Series>)
        requires
            old(self).wf(),
        ensures
            final(self).has_applied(*old(self), series_models(series@)),
    {
        let ghost keys = key_models(self.rendered_overlays@);
        let ghost curves = series_models(series@);
        let mut index: usize = 0;
        while index < self.rendered_overlays.len() && index < series.len()
            invariant
                self.wf(),
                *self == (AnalysisTools {
                    overlay_visibility: self.overlay_visibility,
                    ..*old(self)
                }),
                keys == key_models(self.rendered_overlays@),
                curves == series_models(series@),
                index <= self.rendered_overlays@.len(),
                index <= series@.len(),
                entry_models(self.overlay_visibility@) == applied(
                    entry_models(old(self).overlay_visibility@),
                    keys,
                    curves,
                    index as int,
                ),
            decreases series@.len() - index,
        {
            assert(keys[index as int] == self.rendered_overlays@[index as int]@);
            assert(curves[index as int] == series@[index as int]@);
            let key = &self.rendered_overlays[index];
            set_entry(
                &mut self.overlay_visibility,
                key.format.as_str(),
                key.kind,
                key.column,
                series[index].visible,
            );
            index = index + 1;
        }
    }
}

/// Frequencies among the first `count` points that a marker can take: the
/// frequency and the target's reading are finite.
pub open spec fn markable(
    points: Seq<PointModel>,
    rows: Option<Seq<Seq<Real>>>,
    column: int,
    count: int,
) -> Seq<Real>
    decreases count,
{
    if count <= 0 {
        seq![]
    } else {
        let before = markable(points, rows, column, count - 1);
        if rows is Some && reading_at(rows->0, count - 1, column) is Some && reading_at(
            rows->0,
            count - 1,
            column,
        )->0.finite() && points[count - 1].freq_hz.finite() {
            before.push(points[count - 1].freq_hz)
        } else {
            before
        }
    }
}

proof fn lemma_nothing_markable(points: Seq<PointModel>, column: int, count: int)
    ensures
        markable(points, None, column, count) == Seq::<Real>::empty(),
    decreases count,
{
    if count > 0 {
        lemma_nothing_markable(points, column, count - 1);
    }
}

/// The same rows.
pub fn copy_data(data: &SweepData) -> (copy: SweepData)
    ensures
        copy@ == data@,
{
    let mut points: Vec<SweepPoint> = Vec::new();
    let mut index: usize = 0;
    while index < data.points.len()
        invariant
            index <= data.points@.len(),
            points@.len() == index,
            forall|i: int| 0 <= i < index ==> (#[trigger] points@[i])@ == data.points@[i]@,
        decreases data.points@.len() - index,
    {
        points.push(
            SweepPoint {
                freq_hz: data.points[index].freq_hz,
                values: copied(&data.points[index].values),
            },
        );
        index = index + 1;
    }
    let copy = SweepData { mode: data.mode, format: data.format.clone(), points };
    assert(copy@.points =~= data@.points);
    copy
}

/// Whether a marker's number is in use.
fn marker_known(markers: &Vec<Marker>, id: u32) -> (known: bool)
    ensures
        known == has_marker(markers@, id),
{
    let mut index: usize = 0;
    while index < markers.len()
        invariant
            index <= markers@.len(),
            forall|i: int| 0 <= i < index ==> (#[trigger] markers@[i]).id != id,
        decreases markers@.len() - index,
    {
        if markers[index].id == id {
            assert(markers@[index as int].id == id);
            return true;
        }
        index = index + 1;
    }
    false
}

/// The markers that can be restored from a list.
fn restore_markers(markers: &Vec<Marker>) -> (kept: Vec<Marker>)
    ensures
        kept@ == restored_markers(markers@, markers@.len() as int),
{
    let mut kept: Vec<Marker> = Vec::new();
    let mut index: usize = 0;
    assert(kept@ =~= restored_markers(markers@, 0));
    while index < markers.len()
        invariant
            index <= markers@.len(),
            kept@ == restored_markers(markers@, index as int),
        decreases markers@.len() - index,
    {
        let marker: Marker = markers[index];
        if kept.len() < MAX_MARKERS && marker.id != 0 && marker.frequency_hz.is_finite()
            && !marker.frequency_hz.less(Real { bits: 0 }) && !marker_known(&kept, marker.id) {
            kept.push(marker);
        }
        index = index + 1;
    }
    kept
}

/// Position of the first selected marker.
pub open spec fn is_first_selected(markers: Seq<Marker>, index: int) -> bool {
    0 <= index < markers.len() && markers[index].selected && forall|i: int|
        0 <= i < index ==> !(#[trigger] markers[i]).selected
}

fn first_selected(markers: &Vec<Marker>) -> (index: Option<usize>)
    ensures
        match index {
            Some(index) => is_first_selected(markers@, index as int),
            None => forall|i: int| 0 <= i < markers@.len() ==> !(#[trigger] markers@[i]).selected,
        },
{
    let mut index: usize = 0;
    while index < markers.len()
        invariant
            index <= markers@.len(),
            forall|i: int| 0 <= i < index ==> !(#[trigger] markers@[i]).selected,
        decreases markers@.len() - index,
    {
        if markers[index].selected {
            return Some(index);
        }
        index = index + 1;
    }
    None
}

fn first_reference(markers: &Vec<Marker>) -> (index: Option<usize>)
    ensures
        match index {
            Some(index) => is_first_reference(markers@, index as int),
            None => forall|i: int| 0 <= i < markers@.len() ==> !(#[trigger] markers@[i]).reference,
        },
{
    let mut index: usize = 0;
    while index < markers.len()
        invariant
            index <= markers@.len(),
            forall|i: int| 0 <= i < index ==> !(#[trigger] markers@[i]).reference,
        decreases markers@.len() - index,
    {
        if markers[index].reference {
            return Some(index);
        }
        index = index + 1;
    }
    None
}

/// Leave exactly one marker selected and at most one reference.
fn normalize_markers(markers: &mut Vec<Marker>)
    ensures
        final(markers)@ == normalized_markers(old(markers)@),
{
    let ghost before = markers@;
    let selected: usize = match first_selected(markers) {
        Some(index) => index,
        None => 0,
    };
    let reference: Option<usize> = first_reference(markers);
    assert forall|i: int| 0 <= i < before.len() implies is_chosen(before, i) == (i == selected) by {
        if exists|k: int| 0 <= k < before.len() && (#[trigger] before[k]).selected {
            let k = choose|k: int| 0 <= k < before.len() && (#[trigger] before[k]).selected;
            assert(before[k].selected);
            assert(before[selected as int].selected);
            if is_chosen(before, i) && i != selected {
                if i < selected {
                    assert(!before[i].selected);
                } else {
                    assert(!before[selected as int].selected);
                }
            }
        }
    }
    let mut index: usize = 0;
    while index < markers.len()
        invariant
            index <= markers@.len() == before.len(),
            forall|i: int|
                0 <= i < before.len() ==> is_chosen(before, i) == (i == selected),
            match reference {
                Some(at) => is_first_reference(before, at as int),
                None => forall|i: int|
                    0 <= i < before.len() ==> !(#[trigger] before[i]).reference,
            },
            forall|i: int|
                0 <= i < markers@.len() ==> #[trigger] markers@[i] == if i < index {
                    normalized_markers(before)[i]
                } else {
                    before[i]
                },
        decreases markers@.len() - index,
    {
        let mut marker: Marker = markers[index];
        marker.selected = index == selected;
        marker.reference = match reference {
            Some(at) => index == at,
            None => false,
        };
        proof {
            let chosen = is_chosen(before, index as int);
            if let Some(at) = reference {
                if is_first_reference(before, index as int) && index != at {
                    if index < at {
                        assert(!before[index as int].reference);
                    } else {
                        assert(!before[at as int].reference);
                    }
                }
            }
            assert(marker == normalized_markers(before)[index as int]);
        }
        markers.set(index, marker);
        index = index + 1;
    }
    assert(markers@ =~= normalized_markers(before));
}

fn largest_marker_id(markers: &Vec<Marker>, low: u32) -> (id: u32)
    ensures
        id == largest_id(markers@, low),
{
    let mut id: u32 = low;
    let mut index: usize = 0;
    assert(markers@.take(0) =~= seq![]);
    while index < markers.len()
        invariant
            index <= markers@.len(),
            id == largest_id(markers@.take(index as int), low),
        decreases markers@.len() - index,
    {
        if markers[index].id > id {
            id = markers[index].id;
        }
        index = index + 1;
        assert(markers@.take(index as int).drop_last() =~= markers@.take(index - 1));
    }
    assert(markers@.take(index as int) =~= markers@);
    id
}

fn overlay_known(entry: &OverlayVisibilityConfig) -> (known: bool)
    ensures
        known == known_overlay(*entry),
{
    let format = entry.format.as_str();
    entry.kind < 3 && entry.column < 3 && (same_text(format, "") || same_text(format, "ri")
        || same_text(format, "ma") || same_text(format, "z") || same_text(format, "loss")
        || same_text(format, "vswr") || same_text(format, "delay"))
}

fn restore_entries(entries: &Vec<OverlayVisibilityConfig>) -> (kept: Vec<OverlayVisibilityConfig>)
    ensures
        in_order(entry_models(kept@)),
        entry_models(kept@) == restored_entries(entries@, entries@.len() as int),
{
    let mut kept: Vec<OverlayVisibilityConfig> = Vec::new();
    let mut index: usize = 0;
    assert(entry_models(kept@) =~= restored_entries(entries@, 0));
    while index < entries.len()
        invariant
            index <= entries@.len(),
            in_order(entry_models(kept@)),
            entry_models(kept@) == restored_entries(entries@, index as int),
        decreases entries@.len() - index,
    {
        let entry = &entries[index];
        if overlay_known(entry) {
            set_entry(
                &mut kept,
                entry.format.as_str(),
                entry.kind,
                entry.column,
                entry.visible,
            );
        }
        index = index + 1;
    }
    kept
}

/// The markers after one is added at a point, numbered and alone selected.
pub open spec fn marker_added(markers: Seq<Marker>, id: u32, frequency: Real) -> Seq<Marker> {
    markers.map_values(|marker: Marker| Marker { selected: false, ..marker }).push(
        Marker {
            id,
            frequency_hz: frequency,
            selected: true,
            reference: false,
            auto_peak: false,
        },
    )
}

/// The markers that are not selected among the first `count`.
pub open spec fn unselected(markers: Seq<Marker>, count: int) -> Seq<Marker>
    decreases count,
{
    if count <= 0 {
        seq![]
    } else if markers[count - 1].selected {
        unselected(markers, count - 1)
    } else {
        unselected(markers, count - 1).push(markers[count - 1])
    }
}

/// The markers with the last one selected as well.
pub open spec fn last_selected(markers: Seq<Marker>) -> Seq<Marker> {
    if markers.len() == 0 {
        markers
    } else {
        markers.update(markers.len() - 1, Marker { selected: true, ..markers.last() })
    }
}

/// The first selected marker changed by hand: it stops following the peak and
/// goes to `frequency`, if there is one.
pub open spec fn moved(markers: Seq<Marker>, frequency: Option<Real>) -> Seq<Marker> {
    Seq::new(
        markers.len(),
        |i: int|
            if is_first_selected(markers, i) {
                Marker {
                    auto_peak: false,
                    frequency_hz: match frequency {
                        Some(frequency) => frequency,
                        None => markers[i].frequency_hz,
                    },
                    ..markers[i]
                }
            } else {
                markers[i]
            },
    )
}

/// Change the first selected marker by hand.
fn move_first_selected(markers: &mut Vec<Marker>, frequency: Option<Real>)
    ensures
        final(markers)@ == moved(old(markers)@, frequency),
{
    let ghost before = markers@;
    match first_selected(markers) {
        Some(index) => {
            let mut marker: Marker = markers[index];
            marker.auto_peak = false;
            if let Some(frequency) = frequency {
                marker.frequency_hz = frequency;
            }
            markers.set(index, marker);
            assert forall|i: int| 0 <= i < before.len() implies #[trigger] markers@[i] == moved(
                before,
                frequency,
            )[i] by {
                if i != index && is_first_selected(before, i) {
                    if i < index {
                        assert(!before[i].selected);
                    } else {
                        assert(!before[index as int].selected);
                    }
                }
            }
        },
        None => {
            assert forall|i: int| 0 <= i < before.len() implies #[trigger] markers@[i] == moved(
                before,
                frequency,
            )[i] by {
                assert(!before[i].selected);
            }
        },
    }
    assert(markers@ =~= moved(before, frequency));
}

impl AnalysisTools {
    /// Whether this is a panel that took over saved settings.
    pub open spec fn is_restored(self, before: Self, config: AnalysisConfig) -> bool {
        let kept = restored_markers(config.markers@, config.markers@.len() as int);
        &&& self.wf()
        &&& self.latest is None
        &&& self.held is None && self.maxima is None && self.minima is None
        &&& self.rendered_overlays@.len() == 0
        &&& self.markers@ == smith_markers(normalized_markers(kept), before.smith)
        &&& self.next_id == largest_id(kept, config.next_id)
        &&& self.hold == config.hold
        &&& self.max_hold == config.max_hold
        &&& self.min_hold == config.min_hold
        &&& self.column == match before.fixed_column {
            Some(column) => column,
            None => if config.column < 2 {
                config.column
            } else {
                2
            },
        }
        &&& self.restored_column
        &&& self.target == smith_target(config.target, before.smith)
        &&& entry_models(self.overlay_visibility@) == restored_entries(
            config.overlay_visibility@,
            config.overlay_visibility@.len() as int,
        )
        &&& self.trace_id == before.trace_id
        &&& self.fixed_column == before.fixed_column
        &&& self.smith == before.smith
        &&& self.language == before.language
    }

    /// Take over saved settings. Measurements are dropped, unusable markers
    /// and overlay names are left out.
    pub fn restore_config(&mut self, config: &AnalysisConfig)
        ensures
            final(self).is_restored(*old(self), *config),
    {
        self.latest = None;
        self.reset_holds();
        self.rendered_overlays.clear();
        let mut markers = restore_markers(&config.markers);
        self.next_id = largest_marker_id(&markers, config.next_id);
        normalize_markers(&mut markers);
        self.markers = markers;
        self.hold = config.hold;
        self.max_hold = config.max_hold;
        self.min_hold = config.min_hold;
        self.column = match self.fixed_column {
            Some(column) => column,
            None => {
                if config.column < 2 {
                    config.column
                } else {
                    2
                }
            },
        };
        self.restored_column = true;
        self.target = config.target;
        self.overlay_visibility = restore_entries(&config.overlay_visibility);
        let smith = self.smith;
        self.set_smith(smith);
    }

    /// Put a new marker on the point nearest to `center`, if there is room, a
    /// number and a point.
    pub fn add_marker(&mut self, trace: &SweepData, center: Real, distances: &Vec<Real>)
        ensures
            if old(self).markers@.len() < MAX_MARKERS && old(self).next_id < u32::MAX
                && nearest_index(trace@.points, center, distances@) is Some {
                &&& final(self).next_id == old(self).next_id + 1
                &&& final(self).markers@ == marker_added(
                    old(self).markers@,
                    (old(self).next_id + 1) as u32,
                    trace@.points[nearest_index(trace@.points, center, distances@)->0].freq_hz,
                )
                &&& *final(self) == (AnalysisTools {
                    next_id: final(self).next_id,
                    markers: final(self).markers,
                    ..*old(self)
                })
            } else {
                *final(self) == *old(self)
            },
    {
        if self.markers.len() >= MAX_MARKERS {
            return;
        }
        let Some(at) = nearest(trace, center, distances) else {
            return;
        };
        if self.next_id == u32::MAX {
            return;
        }
        let id: u32 = self.next_id + 1;
        let mut index: usize = 0;
        while index < self.markers.len()
            invariant
                index <= self.markers@.len() == old(self).markers@.len(),
                *self == (AnalysisTools { markers: self.markers, ..*old(self) }),
                forall|i: int|
                    0 <= i < self.markers@.len() ==> #[trigger] self.markers@[i] == if i < index {
                        Marker { selected: false, ..old(self).markers@[i] }
                    } else {
                        old(self).markers@[i]
                    },
            decreases self.markers@.len() - index,
        {
            let mut marker: Marker = self.markers[index];
            marker.selected = false;
            self.markers.set(index, marker);
            index = index + 1;
        }
        self.next_id = id;
        assert(trace@.points[at as int] == trace.points@[at as int]@);
        self.markers.push(
            Marker {
                id,
                frequency_hz: trace.points[at].freq_hz,
                selected: true,
                reference: false,
                auto_peak: false,
            },
        );
        assert(self.markers@ =~= marker_added(
            old(self).markers@,
            id,
            trace@.points[at as int].freq_hz,
        ));
    }

    /// Remove the selected markers, then select the last one left.
    pub fn remove_selected(&mut self)
        ensures
            *final(self) == (AnalysisTools { markers: final(self).markers, ..*old(self) }),
            final(self).markers@ == last_selected(
                unselected(old(self).markers@, old(self).markers@.len() as int),
            ),
    {
        let mut kept: Vec<Marker> = Vec::new();
        let mut index: usize = 0;
        assert(kept@ =~= unselected(self.markers@, 0));
        while index < self.markers.len()
            invariant
                index <= self.markers@.len(),
                *self == *old(self),
                kept@ == unselected(self.markers@, index as int),
            decreases self.markers@.len() - index,
        {
            if !self.markers[index].selected {
                kept.push(self.markers[index]);
            }
            index = index + 1;
        }
        if kept.len() > 0 {
            let last: usize = kept.len() - 1;
            let mut marker: Marker = kept[last];
            marker.selected = true;
            kept.set(last, marker);
        }
        self.markers = kept;
    }

    pub fn clear_markers(&mut self)
        ensures
            *final(self) == (AnalysisTools { markers: final(self).markers, ..*old(self) }),
            final(self).markers@.len() == 0,
    {
        self.markers.clear();
    }

    /// Move the selected marker to the sample that a search finds.
    pub fn search(&mut self, trace: &SweepData, action: Search)
        ensures
            *final(self) == (AnalysisTools { markers: final(self).markers, ..*old(self) }),
            forall|i: int|
                is_first_selected(old(self).markers@, i) ==> final(self).markers@ == moved(
                    old(self).markers@,
                    old(self).extremum_model(
                        trace@,
                        action,
                        (#[trigger] old(self).markers@[i]).frequency_hz,
                    ),
                ),
            (forall|i: int|
                0 <= i < old(self).markers@.len() ==> !(#[trigger] old(self).markers@[i]).selected)
                ==> final(self).markers@ == old(self).markers@,
    {
        let Some(index) = first_selected(&self.markers) else {
            proof {
                assert forall|i: int| is_first_selected(old(self).markers@, i) implies self.markers@
                    == moved(
                    old(self).markers@,
                    old(self).extremum_model(
                        trace@,
                        action,
                        (#[trigger] old(self).markers@[i]).frequency_hz,
                    ),
                ) by {
                    assert(!old(self).markers@[i].selected);
                }
            }
            return;
        };
        let frequency = self.extremum(trace, action, self.markers[index].frequency_hz);
        move_first_selected(&mut self.markers, frequency);
        proof {
            assert forall|i: int| is_first_selected(old(self).markers@, i) implies i == index by {
                if i < index {
                    assert(!old(self).markers@[i].selected);
                } else if i > index {
                    assert(!old(self).markers@[index as int].selected);
                }
            }
        }
    }

    /// Move the selected marker to the point nearest to `frequency`.
    pub fn move_selected(&mut self, trace: &SweepData, frequency: Real, distances: &Vec<Real>)
        ensures
            *final(self) == (AnalysisTools { markers: final(self).markers, ..*old(self) }),
            final(self).markers@ == moved(
                old(self).markers@,
                match nearest_index(trace@.points, frequency, distances@) {
                    Some(index) => Some(trace@.points[index].freq_hz),
                    None => None,
                },
            ),
    {
        let target = match nearest(trace, frequency, distances) {
            Some(at) => {
                assert(trace@.points[at as int] == trace.points@[at as int]@);
                Some(trace.points[at].freq_hz)
            },
            None => None,
        };
        move_first_selected(&mut self.markers, target);
    }

    /// The target's reading nearest to a frequency, if it is finite.
    pub open spec fn sample_model(
        self,
        trace: DataModel,
        frequency: Real,
        column: int,
        distances: Seq<Real>,
    ) -> Option<(Real, Real)> {
        match nearest_index(trace.points, frequency, distances) {
            None => None,
            Some(index) => match self.target_model(trace) {
                None => None,
                Some(rows) => match reading_at(rows, index, column) {
                    None => None,
                    Some(value) => if value.finite() {
                        Some((trace.points[index].freq_hz, value))
                    } else {
                        None
                    },
                },
            },
        }
    }

    pub fn target_sample(
        &self,
        trace: &SweepData,
        frequency: Real,
        column: usize,
        distances: &Vec<Real>,
    ) -> (sample: Option<(Real, Real)>)
        ensures
            sample == self.sample_model(trace@, frequency, column as int, distances@),
    {
        let Some(index) = nearest(trace, frequency, distances) else {
            return None;
        };
        let Some(rows) = self.target_rows(trace) else {
            return None;
        };
        assert(trace@.points[index as int] == trace.points@[index as int]@);
        match rows.reading(index, column) {
            Some(value) => {
                if value.is_finite() {
                    Some((trace.points[index].freq_hz, value))
                } else {
                    None
                }
            },
            None => None,
        }
    }

    /// Whether the target has a first row on the grid of `trace`.
    pub fn target_ready(&self, trace: &SweepData) -> (ready: bool)
        ensures
            ready == (self.target_model(trace@) is Some && self.target_model(trace@)->0.len() > 0),
    {
        match self.target_rows(trace) {
            Some(rows) => rows.has_row(0),
            None => false,
        }
    }
}

/// A row that a Smith chart can place: an impedance, or a reflection
/// coefficient whose impedance still has to be computed.
#[derive(Debug, Clone, Copy, PartialEq, Eq, Structural)]
pub enum SmithRow {
    Impedance { frequency: Real, resistance: Real, reactance: Real },
    Reflection { frequency: Real, re: Real, im: Real },
}

impl SmithRow {
    /// Frequency, resistance and reactance, if both are finite. `converted` is
    /// the impedance of a reflection coefficient.
    pub fn reading(self, converted: (Real, Real)) -> (reading: Option<(Real, Real, Real)>)
        ensures
            reading == match self {
                SmithRow::Impedance { frequency, resistance, reactance } => if resistance.finite()
                    && reactance.finite() {
                    Some((frequency, resistance, reactance))
                } else {
                    None
                },
                SmithRow::Reflection { frequency, .. } => if converted.0.finite()
                    && converted.1.finite() {
                    Some((frequency, converted.0, converted.1))
                } else {
                    None
                },
            },
    {
        let (frequency, resistance, reactance) = match self {
            SmithRow::Impedance { frequency, resistance, reactance } => (
                frequency,
                resistance,
                reactance,
            ),
            SmithRow::Reflection { frequency, .. } => (frequency, converted.0, converted.1),
        };
        if resistance.is_finite() && reactance.is_finite() {
            Some((frequency, resistance, reactance))
        } else {
            None
        }
    }
}

/// What a Smith chart can place of a row.
pub open spec fn smith_row_of(format: Seq<char>, frequency: Real, row: Seq<Real>) -> Option<
    SmithRow,
> {
    if format == "z"@ && row.len() == 3 {
        Some(SmithRow::Impedance { frequency, resistance: row[1], reactance: row[2] })
    } else if format == "ri"@ && row.len() == 2 {
        Some(SmithRow::Reflection { frequency, re: row[0], im: row[1] })
    } else {
        None
    }
}

/// One line of the marker table.
#[derive(Debug, Clone, Copy, PartialEq, Eq)]
pub struct TableRow {
    pub id: u32,
    pub selected: bool,
    /// Whether this marker is the one that others are compared with.
    pub is_reference: bool,
    /// Whether the difference to the reference is shown.
    pub delta: bool,
    pub sample: Option<(Real, Real)>,
    pub unit: Unit,
}

/// Caption behind a marker's number.
pub open spec fn suffix_key(row: TableRow) -> Option<Text> {
    if row.is_reference {
        Some(Text::AnalysisReference)
    } else if row.delta {
        Some(Text::AnalysisDelta)
    } else {
        None
    }
}

impl TableRow {
    pub fn suffix(&self, language: Language) -> (caption: Option<Caption>)
        ensures
            caption == match suffix_key(*self) {
                Some(key) => Some(Caption::Entry { language, key }),
                None => None,
            },
    {
        if self.is_reference {
            Some(language.text(Text::AnalysisReference))
        } else if self.delta {
            Some(language.text(Text::AnalysisDelta))
        } else {
            None
        }
    }
}

/// Narrowest row of a sweep.
pub open spec fn narrowest(points: Seq<PointModel>, count: int) -> nat
    decreases count,
{
    if count <= 0 {
        0
    } else if count == 1 {
        points[0].values.len()
    } else {
        let before = narrowest(points, count - 1);
        if points[count - 1].values.len() < before {
            points[count - 1].values.len()
        } else {
            before
        }
    }
}

/// Whether any point of a sweep can carry a marker.
pub open spec fn usable(points: Seq<PointModel>) -> bool {
    exists|i: int| 0 <= i < points.len() && (#[trigger] points[i]).freq_hz.finite()
}

fn has_finite_frequency(trace: &SweepData) -> (finite: bool)
    ensures
        finite == usable(trace@.points),
{
    let mut index: usize = 0;
    while index < trace.points.len()
        invariant
            index <= trace.points@.len(),
            forall|i: int|
                0 <= i < index ==> !(#[trigger] trace@.points[i]).freq_hz.finite(),
        decreases trace.points@.len() - index,
    {
        assert(trace@.points[index as int] == trace.points@[index as int]@);
        if trace.points[index].freq_hz.is_finite() {
            return true;
        }
        index = index + 1;
    }
    false
}

fn column_count(trace: &SweepData) -> (count: usize)
    ensures
        count == narrowest(trace@.points, trace@.points.len() as int),
{
    if trace.points.len() == 0 {
        return 0;
    }
    let mut count: usize = trace.points[0].values.len();
    assert(trace@.points[0] == trace.points@[0]@);
    let mut index: usize = 1;
    while index < trace.points.len()
        invariant
            1 <= index <= trace.points@.len(),
            count == narrowest(trace@.points, index as int),
        decreases trace.points@.len() - index,
    {
        assert(trace@.points[index as int] == trace.points@[index as int]@);
        if trace.points[index].values.len() < count {
            count = trace.points[index].values.len();
        }
        index = index + 1;
    }
    count
}

/// A hold that can be switched.
#[derive(Debug, Clone, Copy, PartialEq, Eq, Structural)]
pub enum HoldKind {
    Frozen,
    Maximum,
    Minimum,
}

/// What the analysis panel offers.
#[derive(Debug, Clone, Copy, PartialEq, Eq, Structural)]
pub struct Controls {
    /// Whether the scalar envelopes and actions are offered.
    pub scalar: bool,
    /// Whether there is a sweep that markers can stand on.
    pub usable: bool,
    pub can_add: bool,
    pub can_remove: bool,
    /// Whether the target has rows to read.
    pub ready: bool,
    /// Whether the table and the readout of markers are shown.
    pub table: bool,
    /// Columns that the user can choose from. None when the column is fixed.
    pub columns: usize,
    /// Whether the sweep can be centred on the selected marker.
    pub can_center: bool,
}

/// Rows of a hold that may have been switched off.
pub open spec fn cleared(enabled: bool, cache: Option<Vec<Vec<Real>>>) -> Option<Seq<Seq<Real>>> {
    if enabled {
        optional_rows(cache)
    } else {
        None
    }
}

impl AnalysisTools {
    /// What a Smith chart reads near a frequency.
    pub open spec fn smith_model(
        self,
        trace: DataModel,
        frequency: Real,
        distances: Seq<Real>,
    ) -> Option<SmithRow> {
        match nearest_index(trace.points, frequency, distances) {
            None => None,
            Some(index) => match self.target_model(trace) {
                None => None,
                Some(rows) => if index < rows.len() {
                    smith_row_of(trace.format, trace.points[index].freq_hz, rows[index])
                } else {
                    None
                },
            },
        }
    }

    pub fn smith_row(&self, trace: &SweepData, frequency: Real, distances: &Vec<Real>) -> (row:
        Option<SmithRow>)
        ensures
            row == self.smith_model(trace@, frequency, distances@),
    {
        let Some(index) = nearest(trace, frequency, distances) else {
            return None;
        };
        let Some(rows) = self.target_rows(trace) else {
            return None;
        };
        assert(trace@.points[index as int] == trace.points@[index as int]@);
        let at: Real = trace.points[index].freq_hz;
        let ghost model = rows.rows();
        match (
            rows.reading(index, 0),
            rows.reading(index, 1),
            rows.reading(index, 2),
            rows.reading(index, 3),
        ) {
            (Some(_), Some(resistance), Some(reactance), None) => {
                assert(model[index as int].len() == 3);
                if same_text(trace.format.as_str(), "z") {
                    Some(SmithRow::Impedance { frequency: at, resistance, reactance })
                } else {
                    None
                }
            },
            (Some(re), Some(im), None, _) => {
                assert(model[index as int].len() == 2);
                if same_text(trace.format.as_str(), "ri") {
                    Some(SmithRow::Reflection { frequency: at, re, im })
                } else {
                    None
                }
            },
            _ => None,
        }
    }

    /// Whether the table has a reference.
    pub open spec fn has_reference(self) -> bool {
        !self.smith && exists|i: int| is_first_reference(self.markers@, i)
    }

    /// The number of the table's reference.
    pub open spec fn reference_id(self) -> Option<u32> {
        if self.has_reference() {
            Some(self.markers@[choose|i: int| is_first_reference(self.markers@, i)].id)
        } else {
            None
        }
    }

    /// One line of the marker table.
    pub open spec fn table_row(self, trace: DataModel, index: int, distances: Seq<Vec<Real>>) -> TableRow {
        let marker = self.markers@[index];
        let is_reference = self.reference_id() == Some(marker.id);
        let delta = self.reference_id() is Some && !is_reference;
        let unit = unit_of(trace.mode, trace.format, self.column);
        TableRow {
            id: marker.id,
            selected: marker.selected,
            is_reference,
            delta,
            sample: self.sample_model(
                trace,
                marker.frequency_hz,
                self.column as int,
                if index < distances.len() {
                    distances[index]@
                } else {
                    seq![]
                },
            ),
            unit: if delta && unit is DecibelMilliwatts {
                Unit::Decibels
            } else {
                unit
            },
        }
    }

    /// The lines of the marker table. `distances` holds each marker's distances
    /// to the sweep's points.
    pub fn marker_table(&self, trace: &SweepData, distances: &Vec<Vec<Real>>) -> (rows: Vec<
        TableRow,
    >)
        ensures
            rows@ == Seq::new(
                self.markers@.len(),
                |i: int| self.table_row(trace@, i, distances@),
            ),
    {
        let nowhere: Vec<Real> = Vec::new();
        assert(nowhere@ =~= Seq::<Real>::empty());
        let reference: Option<u32> = if self.smith {
            None
        } else {
            match first_reference(&self.markers) {
                Some(index) => Some(self.markers[index].id),
                None => None,
            }
        };
        proof {
            if !self.smith {
                if let Some(index) = choose_first_reference(self.markers@) {
                    assert(is_first_reference(self.markers@, index));
                    lemma_one_reference(self.markers@, index);
                }
                assert forall|i: int| is_first_reference(self.markers@, i) implies reference
                    == Some(self.markers@[i].id) by {
                    lemma_one_reference(self.markers@, i);
                }
            }
        }
        let mut rows: Vec<TableRow> = Vec::new();
        let mut index: usize = 0;
        while index < self.markers.len()
            invariant
                index <= self.markers@.len(),
                nowhere@ == Seq::<Real>::empty(),
                reference == self.reference_id(),
                rows@.len() == index,
                forall|i: int|
                    0 <= i < index ==> #[trigger] rows@[i] == self.table_row(trace@, i, distances@),
            decreases self.markers@.len() - index,
        {
            let marker: Marker = self.markers[index];
            let apart: &Vec<Real> = if index < distances.len() {
                &distances[index]
            } else {
                &nowhere
            };
            let is_reference = match reference {
                Some(id) => id == marker.id,
                None => false,
            };
            let delta = reference.is_some() && !is_reference;
            let row = TableRow {
                id: marker.id,
                selected: marker.selected,
                is_reference,
                delta,
                sample: self.target_sample(trace, marker.frequency_hz, self.column, apart),
                unit: difference_unit(trace, self.column, delta),
            };
            rows.push(row);
            index = index + 1;
        }
        assert(rows@ =~= Seq::new(
            self.markers@.len(),
            |i: int| self.table_row(trace@, i, distances@),
        ));
        rows
    }

    /// Select the marker with this number alone.
    pub fn select_marker(&mut self, id: u32)
        ensures
            *final(self) == (AnalysisTools { markers: final(self).markers, ..*old(self) }),
            final(self).markers@ == old(self).markers@.map_values(
                |marker: Marker| Marker { selected: marker.id == id, ..marker },
            ),
    {
        let mut index: usize = 0;
        while index < self.markers.len()
            invariant
                index <= self.markers@.len() == old(self).markers@.len(),
                *self == (AnalysisTools { markers: self.markers, ..*old(self) }),
                forall|i: int|
                    0 <= i < self.markers@.len() ==> #[trigger] self.markers@[i] == if i < index {
                        Marker {
                            selected: old(self).markers@[i].id == id,
                            ..old(self).markers@[i]
                        }
                    } else {
                        old(self).markers@[i]
                    },
            decreases self.markers@.len() - index,
        {
            let mut marker: Marker = self.markers[index];
            marker.selected = marker.id == id;
            self.markers.set(index, marker);
            index = index + 1;
        }
        assert(self.markers@ =~= old(self).markers@.map_values(
            |marker: Marker| Marker { selected: marker.id == id, ..marker },
        ));
    }

    /// The marker that the readout shows, and whose frequency the sweep can be
    /// centred on: the selected one.
    pub fn selected_marker(&self) -> (marker: Option<Marker>)
        ensures
            match marker {
                Some(marker) => exists|i: int| #[trigger]
                    is_first_selected(self.markers@, i) && marker == self.markers@[i],
                None => forall|i: int|
                    0 <= i < self.markers@.len() ==> !(#[trigger] self.markers@[i]).selected,
            },
    {
        match first_selected(&self.markers) {
            Some(index) => Some(self.markers[index]),
            None => None,
        }
    }

    /// Make the selected marker the only reference, or leave none.
    pub fn set_reference(&mut self, reference: bool)
        ensures
            *final(self) == (AnalysisTools { markers: final(self).markers, ..*old(self) }),
            (exists|i: int| is_first_selected(old(self).markers@, i)) ==> final(self).markers@
                == Seq::new(
                old(self).markers@.len(),
                |i: int|
                    Marker {
                        reference: reference && is_first_selected(old(self).markers@, i),
                        ..old(self).markers@[i]
                    },
            ),
            !(exists|i: int| is_first_selected(old(self).markers@, i)) ==> final(self).markers@
                == old(self).markers@,
    {
        let Some(at) = first_selected(&self.markers) else {
            proof {
                assert forall|i: int| !is_first_selected(old(self).markers@, i) by {
                    if is_first_selected(old(self).markers@, i) {
                        assert(!old(self).markers@[i].selected);
                    }
                }
            }
            return;
        };
        proof {
            lemma_one_selected(old(self).markers@, at as int);
        }
        let mut index: usize = 0;
        while index < self.markers.len()
            invariant
                index <= self.markers@.len() == old(self).markers@.len(),
                is_first_selected(old(self).markers@, at as int),
                forall|i: int| is_first_selected(old(self).markers@, i) ==> i == at,
                *self == (AnalysisTools { markers: self.markers, ..*old(self) }),
                forall|i: int|
                    0 <= i < self.markers@.len() ==> #[trigger] self.markers@[i] == if i < index {
                        Marker { reference: reference && i == at, ..old(self).markers@[i] }
                    } else {
                        old(self).markers@[i]
                    },
            decreases self.markers@.len() - index,
        {
            let mut marker: Marker = self.markers[index];
            marker.reference = reference && index == at;
            self.markers.set(index, marker);
            index = index + 1;
        }
        assert(self.markers@ =~= Seq::new(
            old(self).markers@.len(),
            |i: int|
                Marker {
                    reference: reference && is_first_selected(old(self).markers@, i),
                    ..old(self).markers@[i]
                },
        ));
    }

    /// Switch a hold, starting from the sweep on display.
    pub fn toggle_hold(&mut self, kind: HoldKind, trace: Option<&SweepData>)
        ensures
            final(self).hold == (old(self).hold != (kind is Frozen)),
            final(self).max_hold == (old(self).max_hold != (kind is Maximum)),
            final(self).min_hold == (old(self).min_hold != (kind is Minimum)),
            *final(self) == (AnalysisTools {
                hold: final(self).hold,
                max_hold: final(self).max_hold,
                min_hold: final(self).min_hold,
                held: final(self).held,
                maxima: final(self).maxima,
                minima: final(self).minima,
                markers: final(self).markers,
                ..*old(self)
            }),
            match trace {
                None => {
                    &&& optional_rows(final(self).held) == cleared(final(self).hold, old(self).held)
                    &&& optional_rows(final(self).maxima) == cleared(
                        final(self).max_hold,
                        old(self).maxima,
                    )
                    &&& optional_rows(final(self).minima) == cleared(
                        final(self).min_hold,
                        old(self).minima,
                    )
                    &&& final(self).markers == old(self).markers
                },
                Some(trace) => {
                    &&& optional_rows(final(self).held) == hold_after(
                        cleared(final(self).hold, old(self).held),
                        final(self).hold,
                        rows_of(trace@.points),
                    )
                    &&& optional_rows(final(self).maxima) == envelope_after(
                        cleared(final(self).max_hold, old(self).maxima),
                        final(self).max_hold,
                        rows_of(trace@.points),
                        true,
                    )
                    &&& optional_rows(final(self).minima) == envelope_after(
                        cleared(final(self).min_hold, old(self).minima),
                        final(self).min_hold,
                        rows_of(trace@.points),
                        false,
                    )
                    &&& final(self).markers@ == if old(self).smith {
                        old(self).markers@
                    } else {
                        peaked(
                            old(self).markers@,
                            final(self).extremum_model(trace@, Search::Maximum, zero()),
                        )
                    }
                },
            },
    {
        match kind {
            HoldKind::Frozen => {
                self.hold = !self.hold;
            },
            HoldKind::Maximum => {
                self.max_hold = !self.max_hold;
            },
            HoldKind::Minimum => {
                self.min_hold = !self.min_hold;
            },
        }
        if !self.hold {
            self.held = None;
        }
        if !self.max_hold {
            self.maxima = None;
        }
        if !self.min_hold {
            self.minima = None;
        }
        if let Some(trace) = trace {
            self.refresh_holds(trace);
            self.refresh_auto_peaks(trace);
        }
    }

    /// Start all holds anew from the sweep on display.
    pub fn restart_holds(&mut self, trace: Option<&SweepData>)
        ensures
            *final(self) == (AnalysisTools {
                held: final(self).held,
                maxima: final(self).maxima,
                minima: final(self).minima,
                markers: final(self).markers,
                ..*old(self)
            }),
            match trace {
                None => final(self).held is None && final(self).maxima is None
                    && final(self).minima is None && final(self).markers == old(self).markers,
                Some(trace) => {
                    &&& optional_rows(final(self).held) == hold_after(
                        None,
                        old(self).hold,
                        rows_of(trace@.points),
                    )
                    &&& optional_rows(final(self).maxima) == envelope_after(
                        None,
                        old(self).max_hold,
                        rows_of(trace@.points),
                        true,
                    )
                    &&& optional_rows(final(self).minima) == envelope_after(
                        None,
                        old(self).min_hold,
                        rows_of(trace@.points),
                        false,
                    )
                    &&& final(self).markers@ == if old(self).smith {
                        old(self).markers@
                    } else {
                        peaked(
                            old(self).markers@,
                            final(self).extremum_model(trace@, Search::Maximum, zero()),
                        )
                    }
                },
            },
    {
        self.reset_holds();
        if let Some(trace) = trace {
            self.refresh_holds(trace);
            self.refresh_auto_peaks(trace);
        }
    }

    /// Read markers from other rows. A Smith chart does not offer envelopes.
    pub fn choose_target(&mut self, target: MarkerTarget, trace: Option<&SweepData>)
        ensures
            final(self).target == if old(self).smith && (target is Maximum || target is Minimum) {
                old(self).target
            } else {
                target
            },
            *final(self) == (AnalysisTools {
                target: final(self).target,
                markers: final(self).markers,
                ..*old(self)
            }),
            final(self).markers@ == if trace is Some && !old(self).smith && final(self).target
                != old(self).target && usable(trace->0@.points) {
                peaked(
                    old(self).markers@,
                    final(self).extremum_model(trace->0@, Search::Maximum, zero()),
                )
            } else {
                old(self).markers@
            },
    {
        if self.smith && matches!(target, MarkerTarget::Maximum | MarkerTarget::Minimum) {
            return;
        }
        let changed = self.target != target;
        self.target = target;
        if changed {
            if let Some(trace) = trace {
                if has_finite_frequency(trace) {
                    self.refresh_auto_peaks(trace);
                }
            }
        }
    }

    /// Read markers from another column, unless it is fixed.
    pub fn choose_column(&mut self, column: usize, trace: &SweepData)
        ensures
            final(self).column == if old(self).fixed_column is None {
                column
            } else {
                old(self).column
            },
            *final(self) == (AnalysisTools {
                column: final(self).column,
                markers: final(self).markers,
                ..*old(self)
            }),
            final(self).markers@ == if final(self).column != old(self).column && !old(self).smith {
                peaked(
                    old(self).markers@,
                    final(self).extremum_model(trace@, Search::Maximum, zero()),
                )
            } else {
                old(self).markers@
            },
    {
        if self.fixed_column.is_some() || self.column == column {
            return;
        }
        self.column = column;
        self.refresh_auto_peaks(trace);
    }

    /// Let the selected marker follow the peak, or stop it.
    pub fn set_auto_peak(&mut self, follow: bool, trace: &SweepData)
        ensures
            *final(self) == (AnalysisTools { markers: final(self).markers, ..*old(self) }),
            final(self).markers@ == {
                let markers = Seq::new(
                    old(self).markers@.len(),
                    |i: int|
                        if is_first_selected(old(self).markers@, i) {
                            Marker { auto_peak: follow, ..old(self).markers@[i] }
                        } else {
                            old(self).markers@[i]
                        },
                );
                if old(self).smith {
                    markers
                } else {
                    peaked(markers, old(self).extremum_model(trace@, Search::Maximum, zero()))
                }
            },
    {
        let ghost after = Seq::new(
            old(self).markers@.len(),
            |i: int|
                if is_first_selected(old(self).markers@, i) {
                    Marker { auto_peak: follow, ..old(self).markers@[i] }
                } else {
                    old(self).markers@[i]
                },
        );
        match first_selected(&self.markers) {
            Some(at) => {
                proof {
                    lemma_one_selected(old(self).markers@, at as int);
                }
                let mut marker: Marker = self.markers[at];
                marker.auto_peak = follow;
                self.markers.set(at, marker);
            },
            None => {
                proof {
                    assert forall|i: int| !is_first_selected(old(self).markers@, i) by {
                        if is_first_selected(old(self).markers@, i) {
                            assert(!old(self).markers@[i].selected);
                        }
                    }
                }
            },
        }
        assert(self.markers@ =~= after);
        self.refresh_auto_peaks(trace);
    }

    /// Prepare the analysis panel for a display: follow its language and kind,
    /// stay within the sweep's columns, and say what is offered.
    pub fn controls_for_display(
        &mut self,
        language: Language,
        trace: Option<&SweepData>,
        smith: bool,
        allow_sweep_center: bool,
    ) -> (controls: Controls)
        ensures
            final(self).language == language,
            final(self).smith == smith,
            final(self).target == smith_target(old(self).target, smith),
            *final(self) == (AnalysisTools {
                language,
                smith,
                target: final(self).target,
                column: final(self).column,
                markers: final(self).markers,
                ..*old(self)
            }),
            ({
                let shown = match trace {
                    Some(trace) => Some(trace@),
                    None => None,
                };
                let standing = shown is Some && usable(shown->0.points);
                let width = narrowest(shown->0.points, shown->0.points.len() as int);
                let listed = standing && old(self).markers@.len() > 0;
                let clamped = listed && !smith && 0 < width <= old(self).column;
                let ready = listed && final(self).target_model(shown->0) is Some
                    && final(self).target_model(shown->0)->0.len() > 0;
                &&& final(self).column == if clamped {
                    (width - 1) as usize
                } else {
                    old(self).column
                }
                &&& final(self).markers@ == if clamped {
                    peaked(
                        smith_markers(old(self).markers@, smith),
                        final(self).extremum_model(shown->0, Search::Maximum, zero()),
                    )
                } else {
                    smith_markers(old(self).markers@, smith)
                }
                &&& controls == (Controls {
                    scalar: !smith,
                    usable: standing,
                    can_add: standing && old(self).markers@.len() < MAX_MARKERS && old(self).next_id
                        < u32::MAX,
                    can_remove: old(self).markers@.len() > 0,
                    ready,
                    table: listed,
                    columns: if listed && !smith && old(self).fixed_column is None {
                        width as usize
                    } else {
                        0
                    },
                    can_center: ready && allow_sweep_center && exists|i: int|
                        is_first_selected(old(self).markers@, i),
                })
            }),
    {
        let selected = first_selected(&self.markers).is_some();
        proof {
            if let Some(i) = choose_first_selected(self.markers@) {
                assert(is_first_selected(self.markers@, i));
            }
            if !selected {
                assert forall|i: int| !is_first_selected(self.markers@, i) by {
                    if is_first_selected(self.markers@, i) {
                        assert(!self.markers@[i].selected);
                    }
                }
            }
        }
        self.set_language(language);
        self.set_smith(smith);
        let can_remove = self.markers.len() > 0;
        let mut standing = false;
        let mut ready = false;
        let mut columns: usize = 0;
        if let Some(trace) = trace {
            standing = has_finite_frequency(trace);
            if standing && can_remove {
                if !smith {
                    let width: usize = column_count(trace);
                    if width > 0 && self.column >= width {
                        self.column = width - 1;
                        self.refresh_auto_peaks(trace);
                    }
                    if self.fixed_column.is_none() {
                        columns = width;
                    }
                }
                ready = self.target_ready(trace);
            }
        }
        Controls {
            scalar: !smith,
            usable: standing,
            can_add: standing && self.markers.len() < MAX_MARKERS && self.next_id < u32::MAX,
            can_remove,
            ready,
            table: standing && can_remove,
            columns,
            can_center: ready && allow_sweep_center && selected,
        }
    }
}

spec fn choose_first_reference(markers: Seq<Marker>) -> Option<int> {
    if exists|i: int| is_first_reference(markers, i) {
        Some(choose|i: int| is_first_reference(markers, i))
    } else {
        None
    }
}

spec fn choose_first_selected(markers: Seq<Marker>) -> Option<int> {
    if exists|i: int| is_first_selected(markers, i) {
        Some(choose|i: int| is_first_selected(markers, i))
    } else {
        None
    }
}

proof fn lemma_one_reference(markers: Seq<Marker>, index: int)
    requires
        is_first_reference(markers, index),
    ensures
        forall|i: int| is_first_reference(markers, i) ==> i == index,
{
    assert forall|i: int| is_first_reference(markers, i) implies i == index by {
        if i < index {
            assert(!markers[i].reference);
        } else if i > index {
            assert(!markers[index].reference);
        }
    }
}

proof fn lemma_one_selected(markers: Seq<Marker>, index: int)
    requires
        is_first_selected(markers, index),
    ensures
        forall|i: int| is_first_selected(markers, i) ==> i == index,
{
    assert forall|i: int| is_first_selected(markers, i) implies i == index by {
        if i < index {
            assert(!markers[i].selected);
        } else if i > index {
            assert(!markers[index].selected);
        }
    }
}

/// An envelope keeps its shape, lies on its side of every finite reading it
/// has taken, and is not moved by a reading that is no finite number.
pub proof fn law_envelopes_bound_their_readings(
    rows: Seq<Seq<Real>>,
    measured: Seq<Seq<Real>>,
    maximum: bool,
    i: int,
    j: int,
)
    requires
        0 <= i < rows.len(),
        0 <= j < rows[i].len(),
    ensures
        merged(rows, measured, maximum).len() == rows.len(),
        merged(rows, measured, maximum)[i].len() == rows[i].len(),
        ({
            let after = merged(rows, measured, maximum)[i][j];
            let taken = i < measured.len() && j < measured[i].len();
            &&& rows[i][j].finite() ==> after.finite() && if maximum {
                after.rank() >= rows[i][j].rank()
            } else {
                after.rank() <= rows[i][j].rank()
            }
            &&& taken && measured[i][j].finite() ==> after.finite() && if maximum {
                after.rank() >= measured[i][j].rank()
            } else {
                after.rank() <= measured[i][j].rank()
            }
            &&& !taken || !measured[i][j].finite() ==> after == rows[i][j]
            &&& after == rows[i][j] || taken && after == measured[i][j]
        }),
{
}

/// Taking the same sweep again changes no envelope.
pub proof fn law_envelopes_settle(
    rows: Seq<Seq<Real>>,
    measured: Seq<Seq<Real>>,
    maximum: bool,
)
    ensures
        merged(merged(rows, measured, maximum), measured, maximum) == merged(
            rows,
            measured,
            maximum,
        ),
{
    let once = merged(rows, measured, maximum);
    let twice = merged(once, measured, maximum);
    assert forall|i: int| 0 <= i < rows.len() implies twice[i] == #[trigger] once[i] by {
        assert(twice[i] =~= once[i]);
    }
    assert(twice =~= once);
}

/// Markers as the panel keeps them: few enough, each with a number and a
/// frequency of its own, one selected, at most one reference.
pub open spec fn normal_markers(markers: Seq<Marker>) -> bool {
    &&& markers.len() <= MAX_MARKERS
    &&& forall|i: int| 0 <= i < markers.len() ==> restorable(#[trigger] markers[i])
    &&& forall|i: int, j: int|
        0 <= i < j < markers.len() ==> (#[trigger] markers[i]).id != (#[trigger] markers[j]).id
    &&& markers.len() > 0 ==> exists|i: int| 0 <= i < markers.len() && (#[trigger] markers[i]).selected
    &&& forall|i: int, j: int|
        0 <= i < j < markers.len() ==> !((#[trigger] markers[i]).selected && (
        #[trigger] markers[j]).selected)
    &&& forall|i: int, j: int|
        0 <= i < j < markers.len() ==> !((#[trigger] markers[i]).reference && (
        #[trigger] markers[j]).reference)
}

proof fn lemma_restored(markers: Seq<Marker>, count: int)
    requires
        0 <= count <= markers.len(),
    ensures
        ({
            let kept = restored_markers(markers, count);
            &&& kept.len() <= MAX_MARKERS
            &&& forall|i: int| 0 <= i < kept.len() ==> restorable(#[trigger] kept[i])
            &&& forall|i: int, j: int|
                0 <= i < j < kept.len() ==> (#[trigger] kept[i]).id != (#[trigger] kept[j]).id
        }),
    decreases count,
{
    if count > 0 {
        lemma_restored(markers, count - 1);
    }
}

proof fn lemma_largest_id(markers: Seq<Marker>, low: u32)
    ensures
        largest_id(markers, low) >= low,
        forall|i: int| 0 <= i < markers.len() ==> (#[trigger] markers[i]).id <= largest_id(markers, low),
    decreases markers.len(),
{
    if markers.len() > 0 {
        lemma_largest_id(markers.drop_last(), low);
        assert forall|i: int| 0 <= i < markers.len() implies (#[trigger] markers[i]).id
            <= largest_id(markers, low) by {
            if i < markers.len() - 1 {
                assert(markers.drop_last()[i] == markers[i]);
            }
        }
    }
}

/// Whether no marker has a number above the last one that was given out.
pub open spec fn numbered_below(markers: Seq<Marker>, last: u32) -> bool {
    forall|i: int| 0 <= i < markers.len() ==> (#[trigger] markers[i]).id <= last
}

/// Markers that are numbered below the last number leave it as it is.
pub proof fn lemma_numbers_settle(markers: Seq<Marker>, last: u32)
    requires
        numbered_below(markers, last),
    ensures
        largest_id(markers, last) == last,
    decreases markers.len(),
{
    if markers.len() > 0 {
        let rest = markers.drop_last();
        assert forall|i: int| 0 <= i < rest.len() implies (#[trigger] rest[i]).id <= last by {
            assert(rest[i] == markers[i]);
        }
        lemma_numbers_settle(rest, last);
        assert(markers[markers.len() - 1].id <= last);
    }
}

proof fn lemma_first_selected(markers: Seq<Marker>, index: int)
    requires
        0 <= index < markers.len(),
        markers[index].selected,
    ensures
        exists|i: int| 0 <= i <= index && is_chosen(markers, i),
    decreases index,
{
    if exists|i: int| 0 <= i < index && (#[trigger] markers[i]).selected {
        let earlier = choose|i: int| 0 <= i < index && (#[trigger] markers[i]).selected;
        lemma_first_selected(markers, earlier);
        let first = choose|i: int| 0 <= i <= earlier && is_chosen(markers, i);
        assert(0 <= first <= index && is_chosen(markers, first));
    } else {
        assert(is_chosen(markers, index));
    }
}

proof fn lemma_normalized(markers: Seq<Marker>)
    requires
        markers.len() <= MAX_MARKERS,
        forall|i: int| 0 <= i < markers.len() ==> restorable(#[trigger] markers[i]),
        forall|i: int, j: int|
            0 <= i < j < markers.len() ==> (#[trigger] markers[i]).id != (#[trigger] markers[j]).id,
    ensures
        normal_markers(normalized_markers(markers)),
{
    let after = normalized_markers(markers);
    assert forall|i: int| 0 <= i < after.len() implies restorable(#[trigger] after[i]) by {
        assert(restorable(markers[i]));
    }
    assert forall|i: int, j: int| 0 <= i < j < after.len() implies (#[trigger] after[i]).id != (
    #[trigger] after[j]).id by {
        assert(markers[i].id != markers[j].id);
    }
    if after.len() > 0 {
        if exists|i: int| 0 <= i < markers.len() && (#[trigger] markers[i]).selected {
            let some = choose|i: int| 0 <= i < markers.len() && (#[trigger] markers[i]).selected;
            lemma_first_selected(markers, some);
            let first = choose|i: int| 0 <= i <= some && is_chosen(markers, i);
            assert(after[first].selected);
        } else {
            assert(is_chosen(markers, 0));
            assert(after[0].selected);
        }
    }
    assert forall|i: int, j: int| 0 <= i < j < after.len() implies !((#[trigger] after[i]).selected
        && (#[trigger] after[j]).selected) by {
        if is_chosen(markers, i) && is_chosen(markers, j) {
            assert(!markers[i].selected);
        }
    }
    assert forall|i: int, j: int| 0 <= i < j < after.len() implies !((#[trigger] after[i]).reference
        && (#[trigger] after[j]).reference) by {
        if is_first_reference(markers, i) && is_first_reference(markers, j) {
            assert(!markers[i].reference);
        }
    }
}

/// Whatever was stored, the restored markers are normal, and numbers handed
/// out later are new.
pub proof fn law_restored_markers_are_normal(markers: Seq<Marker>, next_id: u32, smith: bool)
    ensures
        ({
            let restored = restored_markers(markers, markers.len() as int);
            let after = smith_markers(normalized_markers(restored), smith);
            &&& normal_markers(after)
            &&& largest_id(restored, next_id) >= next_id
            &&& forall|i: int|
                0 <= i < after.len() ==> (#[trigger] after[i]).id <= largest_id(restored, next_id)
        }),
{
    let restored = restored_markers(markers, markers.len() as int);
    let normal = normalized_markers(restored);
    let after = smith_markers(normal, smith);
    lemma_restored(markers, markers.len() as int);
    lemma_normalized(restored);
    lemma_largest_id(restored, next_id);
    assert forall|i: int| 0 <= i < after.len() implies (#[trigger] after[i]).id <= largest_id(
        restored,
        next_id,
    ) by {
        assert(restored[i].id <= largest_id(restored, next_id));
    }
    if smith {
        assert forall|i: int| 0 <= i < after.len() implies restorable(#[trigger] after[i]) by {
            assert(restorable(normal[i]));
        }
        assert forall|i: int, j: int| 0 <= i < j < after.len() implies (#[trigger] after[i]).id != (
        #[trigger] after[j]).id by {
            assert(normal[i].id != normal[j].id);
        }
        if after.len() > 0 {
            let some = choose|i: int| 0 <= i < normal.len() && (#[trigger] normal[i]).selected;
            assert(after[some].selected);
        }
        assert forall|i: int, j: int| 0 <= i < j < after.len() implies !((
        #[trigger] after[i]).selected && (#[trigger] after[j]).selected) by {
            assert(!(normal[i].selected && normal[j].selected));
        }
    }
}

proof fn lemma_all_restored(markers: Seq<Marker>, count: int)
    requires
        normal_markers(markers),
        0 <= count <= markers.len(),
    ensures
        restored_markers(markers, count) == markers.take(count),
    decreases count,
{
    if count > 0 {
        lemma_all_restored(markers, count - 1);
        let kept = markers.take(count - 1);
        let next = markers[count - 1];
        assert(!has_marker(kept, next.id)) by {
            if has_marker(kept, next.id) {
                let i = choose|i: int| 0 <= i < kept.len() && (#[trigger] kept[i]).id == next.id;
                assert(markers[i].id != markers[count - 1].id);
            }
        }
        assert(restorable(markers[count - 1]));
        assert(markers.take(count) =~= kept.push(next));
    } else {
        assert(markers.take(0) =~= Seq::<Marker>::empty());
    }
}

/// Every one of normal markers is kept when they are restored.
pub proof fn law_stored_markers_are_all_kept(markers: Seq<Marker>)
    requires
        normal_markers(markers),
    ensures
        restored_markers(markers, markers.len() as int) == markers,
{
    lemma_all_restored(markers, markers.len() as int);
    assert(markers.take(markers.len() as int) =~= markers);
}

/// Storing normal markers and restoring them changes none.
pub proof fn law_stored_markers_come_back(markers: Seq<Marker>)
    requires
        normal_markers(markers),
    ensures
        normalized_markers(restored_markers(markers, markers.len() as int)) == markers,
{
    law_stored_markers_are_all_kept(markers);
    let after = normalized_markers(markers);
    assert forall|i: int| 0 <= i < markers.len() implies #[trigger] after[i] == markers[i] by {
        if markers[i].selected {
            assert(forall|k: int| 0 <= k < i ==> !(#[trigger] markers[k]).selected);
            assert(is_chosen(markers, i));
        }
        if markers[i].reference {
            assert(forall|k: int| 0 <= k < i ==> !(#[trigger] markers[k]).reference);
            assert(is_first_reference(markers, i));
        }
    }
    assert(after =~= markers);
}

proof fn lemma_entry_appended(entries: Seq<(KeyModel, bool)>, key: KeyModel, visible: bool)
    requires
        forall|i: int| 0 <= i < entries.len() ==> key_before((#[trigger] entries[i]).0, key),
    ensures
        entry_set(entries, key, visible) == entries.push((key, visible)),
    decreases entries.len(),
{
    if entries.len() > 0 {
        lemma_key_before_total(entries[0].0, key);
        let rest = entries.skip(1);
        assert forall|i: int| 0 <= i < rest.len() implies key_before((#[trigger] rest[i]).0, key) by {
            assert(rest[i] == entries[i + 1]);
        }
        lemma_entry_appended(rest, key, visible);
        assert(seq![entries[0]] + rest.push((key, visible)) =~= entries.push((key, visible)));
    } else {
        assert(seq![(key, visible)] =~= entries.push((key, visible)));
    }
}

proof fn lemma_entries_come_back(entries: Seq<OverlayVisibilityConfig>, count: int)
    requires
        0 <= count <= entries.len(),
        in_order(entry_models(entries)),
        forall|i: int| 0 <= i < entries.len() ==> known_overlay(#[trigger] entries[i]),
    ensures
        restored_entries(entries, count) == entry_models(entries).take(count),
    decreases count,
{
    let models = entry_models(entries);
    if count > 0 {
        lemma_entries_come_back(entries, count - 1);
        assert(known_overlay(entries[count - 1]));
        let kept = models.take(count - 1);
        assert forall|i: int| 0 <= i < kept.len() implies key_before(
            (#[trigger] kept[i]).0,
            models[count - 1].0,
        ) by {
            assert(kept[i] == models[i]);
        }
        lemma_entry_appended(kept, models[count - 1].0, models[count - 1].1);
        assert(models.take(count) =~= kept.push(models[count - 1]));
    } else {
        assert(models.take(0) =~= Seq::<(KeyModel, bool)>::empty());
    }
}

/// Overlay settings that stand in order come back from storage as they were.
pub proof fn law_stored_overlays_come_back(entries: Seq<OverlayVisibilityConfig>)
    requires
        in_order(entry_models(entries)),
        forall|i: int| 0 <= i < entries.len() ==> known_overlay(#[trigger] entries[i]),
    ensures
        restored_entries(entries, entries.len() as int) == entry_models(entries),
{
    lemma_entries_come_back(entries, entries.len() as int);
    assert(entry_models(entries).take(entries.len() as int) =~= entry_models(entries));
}

proof fn lemma_entries_known(entries: Seq<OverlayVisibilityConfig>, count: int)
    requires
        0 <= count <= entries.len(),
    ensures
        in_order(restored_entries(entries, count)),
        forall|i: int|
            0 <= i < restored_entries(entries, count).len() ==> known_key(
                (#[trigger] restored_entries(entries, count)[i]).0,
            ),
    decreases count,
{
    if count > 0 {
        lemma_entries_known(entries, count - 1);
        let kept = restored_entries(entries, count - 1);
        let next = entries[count - 1];
        if known_overlay(next) {
            let key = entry_model(next).0;
            law_entry_set(kept, key, next.visible);
            let after = entry_set(kept, key, next.visible);
            assert forall|i: int| 0 <= i < after.len() implies known_key(
                (#[trigger] after[i]).0,
            ) by {
                if after[i].0 != key {
                    let j = choose|j: int|
                        0 <= j < kept.len() && (#[trigger] kept[j]).0 == after[i].0;
                    assert(known_key(kept[j].0));
                }
            }
        }
    }
}

/// Whatever was stored, the restored overlay settings have a kind, a column and
/// a format that exist, stand in order, and name each overlay once.
pub proof fn law_restored_overlays_are_known(entries: Seq<OverlayVisibilityConfig>)
    ensures
        ({
            let restored = restored_entries(entries, entries.len() as int);
            &&& in_order(restored)
            &&& forall|i: int| 0 <= i < restored.len() ==> known_key((#[trigger] restored[i]).0)
        }),
{
    lemma_entries_known(entries, entries.len() as int);
}

/// Restoring twice changes nothing: whatever was stored, the settings that a
/// panel has once it took them over are sound, and a panel of the same kind that
/// takes over those has them again.
pub proof fn law_restoring_twice_changes_nothing(
    config: AnalysisConfig,
    before: AnalysisTools,
    first: AnalysisTools,
    saved: AnalysisConfig,
    other: AnalysisTools,
    second: AnalysisTools,
    again: AnalysisConfig,
)
    requires
        first.is_restored(before, config),
        first.is_saved_as(saved),
        other.smith == first.smith,
        other.fixed_column == first.fixed_column,
        second.is_restored(other, saved),
        second.is_saved_as(again),
    ensures
        again.same_as(saved),
        normal_markers(saved.markers@),
        numbered_below(saved.markers@, saved.next_id),
        in_order(entry_models(saved.overlay_visibility@)),
        forall|i: int|
            0 <= i < saved.overlay_visibility@.len() ==> known_overlay(
                #[trigger] saved.overlay_visibility@[i],
            ),
{
    law_restored_markers_are_normal(config.markers@, config.next_id, before.smith);
    law_stored_markers_are_all_kept(saved.markers@);
    law_stored_markers_come_back(saved.markers@);
    lemma_smith_markers_settle(
        normalized_markers(restored_markers(config.markers@, config.markers@.len() as int)),
        before.smith,
    );
    lemma_numbers_settle(saved.markers@, saved.next_id);
    law_restored_overlays_are_known(config.overlay_visibility@);
    let entries = saved.overlay_visibility@;
    let models = entry_models(entries);
    assert forall|i: int| 0 <= i < entries.len() implies known_overlay(#[trigger] entries[i]) by {
        assert(known_key(models[i].0));
    }
    law_stored_overlays_come_back(entries);
}

/// The flag that a legend's first `count` curves give a name last, if any.
pub open spec fn last_flag(
    keys: Seq<KeyModel>,
    series: Seq<SeriesModel>,
    count: int,
    key: KeyModel,
) -> Option<bool>
    decreases count,
{
    if count <= 0 {
        None
    } else if keys[count - 1] == key {
        Some(series[count - 1].visible)
    } else {
        last_flag(keys, series, count - 1, key)
    }
}

/// After a legend was taken over, each name is shown as the legend says last.
/// Names that the legend does not hold are shown as before.
pub proof fn law_legends_are_taken_over(
    entries: Seq<(KeyModel, bool)>,
    keys: Seq<KeyModel>,
    series: Seq<SeriesModel>,
    count: int,
)
    requires
        in_order(entries),
        0 <= count <= legend_length(keys, series),
    ensures
        in_order(applied(entries, keys, series, count)),
        forall|key: KeyModel| #[trigger]
            shown(applied(entries, keys, series, count), key) == match last_flag(
                keys,
                series,
                count,
                key,
            ) {
                Some(visible) => visible,
                None => shown(entries, key),
            },
    decreases count,
{
    if count > 0 {
        law_legends_are_taken_over(entries, keys, series, count - 1);
        law_entry_set(
            applied(entries, keys, series, count - 1),
            keys[count - 1],
            series[count - 1].visible,
        );
    }
}

/// Something that happens to a panel between two drawings of its overlays.
pub enum OverlayStep {
    Language(Language),
    Sweep { snapshot: Arc<CompletedSweep>, distances: Seq<Vec<Real>> },
    Draw { columns: Seq<usize>, series: Seq<SeriesModel> },
    Legend { series: Seq<SeriesModel> },
}

impl OverlayStep {
    /// Whether the step leads from one state of a panel to the next, as the
    /// call that it stands for says.
    pub open spec fn leads(self, before: AnalysisTools, after: AnalysisTools) -> bool {
        match self {
            OverlayStep::Language(language) => after == (AnalysisTools { language, ..before }),
            OverlayStep::Sweep { snapshot, distances } => after.is_observed(
                before,
                snapshot,
                distances,
            ),
            OverlayStep::Draw { columns, series } => after.has_drawn(before, columns, series),
            OverlayStep::Legend { series } => after.has_applied(before, series),
        }
    }
}

/// The flag that the legends of the first `count` steps gave a name last, or
/// how it was shown at the start.
pub open spec fn last_choice(
    states: Seq<AnalysisTools>,
    steps: Seq<OverlayStep>,
    count: int,
    key: KeyModel,
) -> bool
    decreases count,
{
    if count <= 0 {
        shown(entry_models(states[0].overlay_visibility@), key)
    } else {
        let earlier = last_choice(states, steps, count - 1, key);
        match steps[count - 1] {
            OverlayStep::Legend { series } => {
                let keys = key_models(states[count - 1].rendered_overlays@);
                match last_flag(keys, series, legend_length(keys, series), key) {
                    Some(visible) => visible,
                    None => earlier,
                }
            },
            _ => earlier,
        }
    }
}

proof fn lemma_choices_last(states: Seq<AnalysisTools>, steps: Seq<OverlayStep>, count: int)
    requires
        0 <= count <= steps.len(),
        states.len() == steps.len() + 1,
        states[0].wf(),
        forall|i: int|
            0 <= i < steps.len() ==> (#[trigger] steps[i]).leads(states[i], states[i + 1]),
    ensures
        states[count].wf(),
        forall|key: KeyModel| #[trigger]
            shown(entry_models(states[count].overlay_visibility@), key) == last_choice(
                states,
                steps,
                count,
                key,
            ),
    decreases count,
{
    if count > 0 {
        lemma_choices_last(states, steps, count - 1);
        let before = states[count - 1];
        assert(steps[count - 1].leads(before, states[count]));
        if let OverlayStep::Legend { series } = steps[count - 1] {
            let keys = key_models(before.rendered_overlays@);
            law_legends_are_taken_over(
                entry_models(before.overlay_visibility@),
                keys,
                series,
                legend_length(keys, series),
            );
        } else {
            assert(states[count].overlay_visibility == before.overlay_visibility);
        }
    }
}

/// An overlay keeps the visibility that a legend last gave its format, kind and
/// column: through any run of language changes, sweeps, drawings with other
/// columns or another order, and legends, every curve that is drawn afterwards
/// has the flag that was taken over last for its name. A name that no legend
/// held is shown as at the start, and a new panel shows all.
pub proof fn law_overlay_choices_last(
    states: Seq<AnalysisTools>,
    steps: Seq<OverlayStep>,
    columns: Seq<usize>,
)
    requires
        states.len() == steps.len() + 1,
        states[0].wf(),
        forall|i: int|
            0 <= i < steps.len() ==> (#[trigger] steps[i]).leads(states[i], states[i + 1]),
        states.last().latest is Some,
    ensures
        ({
            let panel = states.last();
            let data = panel.latest->0.data@;
            let keys = panel.overlay_keys(data.format, columns);
            let series = panel.overlay_model(data, columns);
            &&& keys.len() == series.len()
            &&& forall|i: int|
                0 <= i < series.len() ==> (#[trigger] series[i]).visible == last_choice(
                    states,
                    steps,
                    steps.len() as int,
                    keys[i],
                )
        }),
        states[0].overlay_visibility@.len() == 0 ==> forall|key: KeyModel| #[trigger]
            last_choice(states, steps, 0, key),
{
    lemma_choices_last(states, steps, steps.len() as int);
    let panel = states.last();
    let data = panel.latest->0.data@;
    let entries = entry_models(panel.overlay_visibility@);
    let keys = panel.overlay_keys(data.format, columns);
    let series = panel.overlay_model(data, columns);
    assert forall|i: int| 0 <= i < series.len() implies (#[trigger] series[i]).visible == last_choice(
        states,
        steps,
        steps.len() as int,
        keys[i],
    ) by {
        assert(series[i].visible == shown(entries, keys[i]));
    }
}

proof fn lemma_last_flag(keys: Seq<KeyModel>, series: Seq<SeriesModel>, count: int, key: KeyModel)
    ensures
        last_flag(keys, series, count, key) is None <==> forall|i: int|
            0 <= i < count ==> #[trigger] keys[i] != key,
    decreases count,
{
    if count > 0 {
        lemma_last_flag(keys, series, count - 1, key);
    }
}

proof fn lemma_last_place(keys: Seq<KeyModel>, series: Seq<SeriesModel>, count: int, place: int)
    requires
        0 <= place < count,
        forall|i: int| place < i < count ==> #[trigger] keys[i] != keys[place],
    ensures
        last_flag(keys, series, count, keys[place]) == Some(series[place].visible),
    decreases count,
{
    if place < count - 1 {
        assert(keys[count - 1] != keys[place]);
        lemma_last_place(keys, series, count - 1, place);
    }
}

/// Whether a step takes over a legend that holds a name.
pub open spec fn legend_holds(before: AnalysisTools, step: OverlayStep, key: KeyModel) -> bool {
    step matches OverlayStep::Legend { series } && {
        let keys = key_models(before.rendered_overlays@);
        exists|i: int| 0 <= i < legend_length(keys, series) && #[trigger] keys[i] == key
    }
}

/// The last legend that holds a name decides how it is shown, by the last curve
/// of that name. What comes afterwards changes nothing.
pub proof fn law_the_last_legend_decides(
    states: Seq<AnalysisTools>,
    steps: Seq<OverlayStep>,
    series: Seq<SeriesModel>,
    at: int,
    place: int,
    count: int,
)
    requires
        0 <= at < count <= steps.len(),
        steps[at] == (OverlayStep::Legend { series }),
        ({
            let keys = key_models(states[at].rendered_overlays@);
            &&& 0 <= place < legend_length(keys, series)
            &&& forall|i: int|
                place < i < legend_length(keys, series) ==> #[trigger] keys[i] != keys[place]
            &&& forall|k: int|
                at < k < count ==> !#[trigger] legend_holds(states[k], steps[k], keys[place])
        }),
    ensures
        last_choice(
            states,
            steps,
            count,
            key_models(states[at].rendered_overlays@)[place],
        ) == series[place].visible,
    decreases count,
{
    let keys = key_models(states[at].rendered_overlays@);
    let key = keys[place];
    if count == at + 1 {
        lemma_last_place(keys, series, legend_length(keys, series), place);
    } else {
        law_the_last_legend_decides(states, steps, series, at, place, count - 1);
        assert(!legend_holds(states[count - 1], steps[count - 1], key));
        if let OverlayStep::Legend { series: later } = steps[count - 1] {
            let names = key_models(states[count - 1].rendered_overlays@);
            lemma_last_flag(names, later, legend_length(names, later), key);
        }
    }
}

/// Adding a marker under a new number keeps the markers normal.
pub proof fn law_added_markers_stay_normal(markers: Seq<Marker>, id: u32, frequency: Real)
    requires
        normal_markers(markers),
        markers.len() < MAX_MARKERS,
        id > 0,
        forall|i: int| 0 <= i < markers.len() ==> (#[trigger] markers[i]).id < id,
        frequency.finite(),
        frequency.rank() >= 0,
    ensures
        normal_markers(marker_added(markers, id, frequency)),
        forall|i: int|
            0 <= i < marker_added(markers, id, frequency).len() ==> (#[trigger] marker_added(
                markers,
                id,
                frequency,
            )[i]).id <= id,
{
    let after = marker_added(markers, id, frequency);
    let last = markers.len() as int;
    assert(after[last].selected);
    assert forall|i: int| 0 <= i < after.len() implies restorable(#[trigger] after[i])
        && after[i].id <= id by {
        if i < last {
            assert(restorable(markers[i]));
        }
    }
    assert forall|i: int, j: int| 0 <= i < j < after.len() implies (#[trigger] after[i]).id != (
    #[trigger] after[j]).id by {
        if j < last {
            assert(markers[i].id != markers[j].id);
        } else {
            assert(markers[i].id < id);
        }
    }
    assert forall|i: int, j: int| 0 <= i < j < after.len() implies !((#[trigger] after[i]).reference
        && (#[trigger] after[j]).reference) by {
        if j < last {
            assert(!(markers[i].reference && markers[j].reference));
        }
    }
}

proof fn lemma_unselected(markers: Seq<Marker>, count: int)
    requires
        normal_markers(markers),
        0 <= count <= markers.len(),
    ensures
        ({
            let kept = unselected(markers, count);
            &&& kept.len() <= count
            &&& forall|i: int| 0 <= i < kept.len() ==> stands_in(markers, #[trigger] kept[i], count)
            &&& forall|i: int| 0 <= i < kept.len() ==> restorable(#[trigger] kept[i])
            &&& forall|i: int| 0 <= i < kept.len() ==> !(#[trigger] kept[i]).selected
            &&& forall|i: int, j: int|
                0 <= i < j < kept.len() ==> (#[trigger] kept[i]).id != (#[trigger] kept[j]).id
            &&& forall|i: int, j: int|
                0 <= i < j < kept.len() ==> !((#[trigger] kept[i]).reference && (
                #[trigger] kept[j]).reference)
        }),
    decreases count,
{
    if count > 0 {
        lemma_unselected(markers, count - 1);
        let kept = unselected(markers, count - 1);
        let next = markers[count - 1];
        let after = unselected(markers, count);
        assert forall|i: int| 0 <= i < kept.len() implies (#[trigger] kept[i]).id != next.id && !(
        kept[i].reference && next.reference) by {
            assert(stands_in(markers, kept[i], count - 1));
            let at = choose|at: int| 0 <= at < count - 1 && markers[at] == kept[i];
            assert(markers[at].id != markers[count - 1].id);
            assert(!(markers[at].reference && markers[count - 1].reference));
        }
        assert forall|i: int| 0 <= i < after.len() implies stands_in(
            markers,
            #[trigger] after[i],
            count,
        ) by {
            if i < kept.len() {
                assert(stands_in(markers, kept[i], count - 1));
                let at = choose|at: int| 0 <= at < count - 1 && markers[at] == kept[i];
                assert(markers[at] == after[i]);
            } else {
                assert(markers[count - 1] == after[i]);
            }
        }
        assert(restorable(markers[count - 1]));
    }
}

/// Whether a marker stands among the first `count`.
spec fn stands_in(markers: Seq<Marker>, marker: Marker, count: int) -> bool {
    exists|at: int| 0 <= at < count && markers[at] == marker
}

/// Removing the selected marker keeps the rest normal: the last one left is
/// selected instead.
pub proof fn law_removed_markers_stay_normal(markers: Seq<Marker>)
    requires
        normal_markers(markers),
    ensures
        normal_markers(last_selected(unselected(markers, markers.len() as int))),
{
    let kept = unselected(markers, markers.len() as int);
    let after = last_selected(kept);
    lemma_unselected(markers, markers.len() as int);
    if kept.len() > 0 {
        assert(after[after.len() - 1].selected);
        assert forall|i: int| 0 <= i < after.len() implies restorable(#[trigger] after[i]) by {
            assert(restorable(kept[i]));
        }
        assert forall|i: int, j: int| 0 <= i < j < after.len() implies (#[trigger] after[i]).id != (
        #[trigger] after[j]).id && !(after[i].selected && after[j].selected) && !(after[i].reference
            && after[j].reference) by {
            assert(kept[i].id != kept[j].id);
            assert(!kept[i].selected);
            assert(!(kept[i].reference && kept[j].reference));
        }
    }
}

/// Whether a point of a sweep can be snapped to: it has a frequency and a
/// distance.
pub open spec fn can_snap(trace: SweepData, distances: Seq<Real>, index: int) -> bool {
    0 <= index < trace.points@.len() && index < distances.len() && trace.points@[index].freq_hz.finite()
}

spec fn nearest_among(points: Seq<PointModel>, distances: Seq<Real>, at: int, count: int) -> bool {
    &&& 0 <= at < count
    &&& measurable(points, distances, at)
    &&& forall|i: int|
        i < count && #[trigger] measurable(points, distances, i) ==> if i < at {
            distances[at].bits < distances[i].bits
        } else {
            distances[at].bits <= distances[i].bits
        }
}

proof fn lemma_some_nearest(points: Seq<PointModel>, distances: Seq<Real>, count: int) -> (at:
    Option<int>)
    requires
        0 <= count,
    ensures
        match at {
            Some(at) => nearest_among(points, distances, at, count),
            None => forall|i: int| i < count ==> !#[trigger] measurable(points, distances, i),
        },
    decreases count,
{
    if count == 0 {
        None
    } else {
        let before = lemma_some_nearest(points, distances, count - 1);
        if measurable(points, distances, count - 1) && (before is None || distances[count - 1].bits
            < distances[before->0].bits) {
            Some(count - 1)
        } else {
            before
        }
    }
}

/// A frequency snaps to the point at the smallest distance, the first one where
/// several are as near. It finds a point unless it is no number, or no point has
/// a frequency.
pub proof fn law_frequencies_snap_to_the_nearest_point(
    trace: &SweepData,
    frequency: Real,
    distances: &Vec<Real>,
    index: Option<usize>,
)
    requires
        call_ensures(nearest, (trace, frequency, distances), index),
    ensures
        index matches Some(at) ==> frequency.finite() && can_snap(*trace, distances@, at as int) && (
        forall|i: int| #[trigger]
            can_snap(*trace, distances@, i) ==> distances@[at as int].bits <= distances@[i].bits
                && (i < at ==> distances@[at as int].bits < distances@[i].bits)),
        index is None ==> !frequency.finite() || forall|i: int|
            !#[trigger] can_snap(*trace, distances@, i),
{
    let points = trace@.points;
    assert forall|i: int| #[trigger] can_snap(*trace, distances@, i) implies measurable(
        points,
        distances@,
        i,
    ) by {
        assert(points[i] == trace.points@[i]@);
    }
    if frequency.finite() && exists|i: int| #[trigger] can_snap(*trace, distances@, i) {
        let some = choose|i: int| #[trigger] can_snap(*trace, distances@, i);
        assert(measurable(points, distances@, some));
        let nearest = lemma_some_nearest(points, distances@, points.len() as int);
        let best = nearest->0;
        assert(is_nearest(points, distances@, best));
    }
    if index is Some {
        let at = index->0 as int;
        let found = choose|i: int| is_nearest(points, distances@, i);
        assert(is_nearest(points, distances@, at));
        assert(points[at] == trace.points@[at]@);
    }
}

/// Whether a search looks at a sample: its frequency and its reading are finite
/// numbers, and it lies on the side that is searched.
pub open spec fn looked_at(
    points: Seq<PointModel>,
    rows: Seq<Seq<Real>>,
    column: int,
    action: Search,
    frequency: Real,
    index: int,
) -> bool {
    &&& 0 <= index < points.len()
    &&& index < rows.len()
    &&& 0 <= column < rows[index].len()
    &&& rows[index][column].finite()
    &&& points[index].freq_hz.finite()
    &&& action is Left ==> points[index].freq_hz.rank() < frequency.rank()
    &&& action is Right ==> points[index].freq_hz.rank() > frequency.rank()
}

spec fn best_among(
    points: Seq<PointModel>,
    rows: Seq<Seq<Real>>,
    column: int,
    action: Search,
    frequency: Real,
    at: int,
    count: int,
) -> bool {
    &&& 0 <= at < count
    &&& eligible(points, rows, column, action, frequency, at)
    &&& forall|i: int|
        i < count && #[trigger] eligible(points, rows, column, action, frequency, i) ==> if i < at {
            preferred(action, rows[at][column], rows[i][column])
        } else {
            !preferred(action, rows[i][column], rows[at][column])
        }
}

proof fn lemma_some_best(
    points: Seq<PointModel>,
    rows: Seq<Seq<Real>>,
    column: int,
    action: Search,
    frequency: Real,
    count: int,
) -> (at: Option<int>)
    requires
        0 <= count,
    ensures
        match at {
            Some(at) => best_among(points, rows, column, action, frequency, at, count),
            None => forall|i: int|
                i < count ==> !#[trigger] eligible(points, rows, column, action, frequency, i),
        },
    decreases count,
{
    if count == 0 {
        None
    } else {
        let before = lemma_some_best(points, rows, column, action, frequency, count - 1);
        if eligible(points, rows, column, action, frequency, count - 1) && (before is None
            || preferred(action, rows[count - 1][column], rows[before->0][column])) {
            Some(count - 1)
        } else {
            before
        }
    }
}

/// A search finds the frequency of the best sample that it looks at: the
/// smallest reading for a minimum and the largest otherwise, the first one where
/// several are equal. It finds one wherever it looks at any.
pub proof fn law_searches_find_the_best_sample(
    points: Seq<PointModel>,
    rows: Seq<Seq<Real>>,
    column: int,
    action: Search,
    frequency: Real,
)
    requires
        frequency.finite(),
    ensures
        found(points, Some(rows), column, action, frequency) is Some <==> exists|i: int| #[trigger]
            looked_at(points, rows, column, action, frequency, i),
        found(points, Some(rows), column, action, frequency) is Some ==> exists|k: int|
            {
                &&& #[trigger] looked_at(points, rows, column, action, frequency, k)
                &&& found(points, Some(rows), column, action, frequency) == Some(points[k].freq_hz)
                &&& forall|i: int| #[trigger]
                    looked_at(points, rows, column, action, frequency, i) ==> if action is Minimum {
                        rows[k][column].rank() <= rows[i][column].rank() && (i < k
                            ==> rows[k][column].rank() < rows[i][column].rank())
                    } else {
                        rows[k][column].rank() >= rows[i][column].rank() && (i < k
                            ==> rows[k][column].rank() > rows[i][column].rank())
                    }
            },
        found(points, None, column, action, frequency) is None,
{
    assert forall|i: int|
        looked_at(points, rows, column, action, frequency, i) == #[trigger] eligible(
            points,
            rows,
            column,
            action,
            frequency,
            i,
        ) by {}
    if exists|i: int| #[trigger] looked_at(points, rows, column, action, frequency, i) {
        let some = choose|i: int| #[trigger] looked_at(points, rows, column, action, frequency, i);
        assert(eligible(points, rows, column, action, frequency, some));
        let hit = lemma_some_best(
            points,
            rows,
            column,
            action,
            frequency,
            points.len() as int,
        );
        let best = hit->0;
        assert(is_best(points, rows, column, action, frequency, best));
    }
    if exists|i: int| is_best(points, rows, column, action, frequency, i) {
        let k = choose|i: int| is_best(points, rows, column, action, frequency, i);
        assert(looked_at(points, rows, column, action, frequency, k));
        assert forall|i: int| #[trigger]
            looked_at(points, rows, column, action, frequency, i) implies if action is Minimum {
            rows[k][column].rank() <= rows[i][column].rank() && (i < k ==> rows[k][column].rank()
                < rows[i][column].rank())
        } else {
            rows[k][column].rank() >= rows[i][column].rank() && (i < k ==> rows[k][column].rank()
                > rows[i][column].rank())
        } by {
            assert(eligible(points, rows, column, action, frequency, i));
        }
    }
}

/// A search moves the first selected marker to what it finds and stops it from
/// following the peak. Other markers stay, and so does everything else.
pub proof fn law_searches_move_the_selected_marker(
    tools: &mut AnalysisTools,
    trace: &SweepData,
    action: Search,
    at: int,
)
    requires
        call_ensures(AnalysisTools::search, (tools, trace, action), ()),
        0 <= at < old(tools).markers@.len(),
        old(tools).markers@[at].selected,
        forall|i: int| 0 <= i < at ==> !(#[trigger] old(tools).markers@[i]).selected,
    ensures
        ({
            let before = old(tools).markers@;
            let after = final(tools).markers@;
            let hit = found(
                trace@.points,
                old(tools).target_model(trace@),
                old(tools).column as int,
                action,
                before[at].frequency_hz,
            );
            &&& after.len() == before.len()
            &&& !after[at].auto_peak
            &&& after[at].frequency_hz == if hit is Some {
                hit->0
            } else {
                before[at].frequency_hz
            }
            &&& after[at].id == before[at].id && after[at].selected
                && after[at].reference == before[at].reference
            &&& forall|i: int|
                0 <= i < before.len() && i != at ==> #[trigger] after[i] == before[i]
        }),
        final(tools).column == old(tools).column,
        final(tools).target == old(tools).target,
        final(tools).latest == old(tools).latest,
{
    let before = old(tools).markers@;
    assert(is_first_selected(before, at));
    assert(final(tools).markers@ == moved(
        before,
        old(tools).extremum_model(trace@, action, before[at].frequency_hz),
    ));
    assert forall|i: int| 0 <= i < before.len() && i != at implies !is_first_selected(
        before,
        i,
    ) by {
        if is_first_selected(before, i) && at < i {
            assert(!before[at].selected);
        }
    }
}

/// A marker that is moved by hand goes to the nearest point, where there is one,
/// and no longer follows the peak.
pub proof fn law_moved_markers_go_to_the_nearest_point(
    tools: &mut AnalysisTools,
    trace: &SweepData,
    frequency: Real,
    distances: &Vec<Real>,
    index: Option<usize>,
    at: int,
)
    requires
        call_ensures(AnalysisTools::move_selected, (tools, trace, frequency, distances), ()),
        call_ensures(nearest, (trace, frequency, distances), index),
        0 <= at < old(tools).markers@.len(),
        old(tools).markers@[at].selected,
        forall|i: int| 0 <= i < at ==> !(#[trigger] old(tools).markers@[i]).selected,
    ensures
        ({
            let before = old(tools).markers@;
            let after = final(tools).markers@;
            &&& after.len() == before.len()
            &&& !after[at].auto_peak
            &&& after[at].frequency_hz == if index is Some {
                trace.points@[index->0 as int].freq_hz
            } else {
                before[at].frequency_hz
            }
            &&& after[at].id == before[at].id
            &&& forall|i: int|
                0 <= i < before.len() && i != at ==> #[trigger] after[i] == before[i]
        }),
{
    let before = old(tools).markers@;
    assert(is_first_selected(before, at));
    if index is Some {
        assert(trace@.points[index->0 as int] == trace.points@[index->0 as int]@);
    }
    assert forall|i: int| 0 <= i < before.len() && i != at implies !is_first_selected(
        before,
        i,
    ) by {
        if is_first_selected(before, i) && at < i {
            assert(!before[at].selected);
        }
    }
}

/// A marker is added on the point nearest to the middle, under a number above
/// all earlier ones, and alone selected. There are ten at most, and those that
/// were there stay where they are.
pub proof fn law_markers_are_added_on_the_nearest_point(
    tools: &mut AnalysisTools,
    trace: &SweepData,
    center: Real,
    distances: &Vec<Real>,
    index: Option<usize>,
)
    requires
        call_ensures(AnalysisTools::add_marker, (tools, trace, center, distances), ()),
        call_ensures(nearest, (trace, center, distances), index),
    ensures
        ({
            let before = old(tools).markers@;
            let after = final(tools).markers@;
            if before.len() < 10 && old(tools).next_id < u32::MAX && index is Some {
                &&& after.len() == before.len() + 1
                &&& after.last().id == old(tools).next_id + 1
                &&& final(tools).next_id == old(tools).next_id + 1
                &&& after.last().frequency_hz == trace.points@[index->0 as int].freq_hz
                &&& after.last().selected && !after.last().reference && !after.last().auto_peak
                &&& forall|i: int|
                    0 <= i < before.len() ==> (#[trigger] after[i]).id == before[i].id
                        && after[i].frequency_hz == before[i].frequency_hz && !after[i].selected
                        && after[i].reference == before[i].reference && after[i].auto_peak
                        == before[i].auto_peak
            } else {
                *final(tools) == *old(tools)
            }
        }),
{
    if index is Some {
        assert(trace@.points[index->0 as int] == trace.points@[index->0 as int]@);
    }
}

proof fn lemma_unselected_kept(markers: Seq<Marker>, count: int)
    requires
        0 <= count <= markers.len(),
    ensures
        forall|k: int|
            0 <= k < unselected(markers, count).len() ==> !(#[trigger] unselected(
                markers,
                count,
            )[k]).selected && exists|i: int| 0 <= i < count && markers[i] == unselected(markers, count)[k],
        forall|i: int|
            0 <= i < count && !(#[trigger] markers[i]).selected ==> exists|k: int|
                0 <= k < unselected(markers, count).len() && unselected(markers, count)[k]
                    == markers[i],
        unselected(markers, count).len() <= count,
    decreases count,
{
    if count > 0 {
        lemma_unselected_kept(markers, count - 1);
        let before = unselected(markers, count - 1);
        let after = unselected(markers, count);
        assert forall|i: int| 0 <= i < count && !(#[trigger] markers[i]).selected implies exists|
            k: int,
        |
            0 <= k < after.len() && after[k] == markers[i] by {
            if i < count - 1 {
                let k = choose|k: int| 0 <= k < before.len() && before[k] == markers[i];
                assert(after[k] == markers[i]);
            } else {
                assert(after[before.len() as int] == markers[i]);
            }
        }
        assert forall|k: int| 0 <= k < after.len() implies !(#[trigger] after[k]).selected && exists|
            i: int,
        |
            0 <= i < count && markers[i] == after[k] by {
            if k < before.len() {
                assert(after[k] == before[k]);
                let i = choose|i: int| 0 <= i < count - 1 && markers[i] == before[k];
                assert(markers[i] == after[k]);
            } else {
                assert(markers[count - 1] == after[k]);
            }
        }
    }
}

/// Removing takes away the selected markers and no other. The last one that is
/// left is selected.
pub proof fn law_selected_markers_are_removed(tools: &mut AnalysisTools, at: int)
    requires
        call_ensures(AnalysisTools::remove_selected, (tools,), ()),
        0 <= at < old(tools).markers@.len(),
    ensures
        ({
            let before = old(tools).markers@;
            let after = final(tools).markers@;
            &&& before[at].selected ==> after.len() < before.len()
            &&& !before[at].selected ==> exists|k: int|
                0 <= k < after.len() && (#[trigger] after[k]).id == before[at].id
                    && after[k].frequency_hz == before[at].frequency_hz
            &&& after.len() > 0 ==> after.last().selected
            &&& forall|k: int| 0 <= k < after.len() - 1 ==> !(#[trigger] after[k]).selected
        }),
        final(tools).next_id == old(tools).next_id,
{
    let before = old(tools).markers@;
    let kept = unselected(before, before.len() as int);
    lemma_unselected_kept(before, before.len() as int);
    if before[at].selected {
        lemma_unselected_shorter(before, before.len() as int, at);
    }
    let after = final(tools).markers@;
    if !before[at].selected {
        let k = choose|k: int| 0 <= k < kept.len() && kept[k] == before[at];
        assert(after[k].id == before[at].id);
    }
}

proof fn lemma_unselected_shorter(markers: Seq<Marker>, count: int, at: int)
    requires
        0 <= at < count <= markers.len(),
        markers[at].selected,
    ensures
        unselected(markers, count).len() < count,
    decreases count,
{
    lemma_unselected_kept(markers, count - 1);
    if at < count - 1 {
        lemma_unselected_shorter(markers, count - 1, at);
    }
}

/// What a marker reads: the value in its column at the nearest point of its
/// target, at that point's own frequency. What is no finite number is not read.
pub proof fn law_markers_read_the_nearest_row(
    tools: &AnalysisTools,
    trace: &SweepData,
    frequency: Real,
    column: usize,
    distances: &Vec<Real>,
    index: Option<usize>,
    sample: Option<(Real, Real)>,
    rows: Seq<Seq<Real>>,
)
    requires
        call_ensures(
            AnalysisTools::target_sample,
            (tools, trace, frequency, column, distances),
            sample,
        ),
        call_ensures(nearest, (trace, frequency, distances), index),
        tools.target_model(trace@) == Some(rows),
    ensures
        index is None ==> sample is None,
        index matches Some(at) ==> {
            let readable = at < rows.len() && column < rows[at as int].len()
                && rows[at as int][column as int].finite();
            &&& sample is Some <==> readable
            &&& readable ==> sample == Some(
                (trace.points@[at as int].freq_hz, rows[at as int][column as int]),
            )
        },
{
    if index is Some {
        assert(trace@.points[index->0 as int] == trace.points@[index->0 as int]@);
    }
}

/// What a marker reads on the Smith chart: of a row of magnitude, resistance and
/// reactance the last two, as they were measured. Of a row of real and imaginary
/// part it reads the impedance that they stand for. Rows of other formats have
/// no place there.
pub proof fn law_smith_markers_read_resistance_and_reactance(
    tools: &AnalysisTools,
    trace: &SweepData,
    frequency: Real,
    distances: &Vec<Real>,
    index: Option<usize>,
    row: Option<SmithRow>,
    converted: (Real, Real),
    reading: Option<(Real, Real, Real)>,
    rows: Seq<Seq<Real>>,
)
    requires
        call_ensures(AnalysisTools::smith_row, (tools, trace, frequency, distances), row),
        call_ensures(nearest, (trace, frequency, distances), index),
        row is Some ==> call_ensures(SmithRow::reading, (row->0, converted), reading),
        tools.target_model(trace@) == Some(rows),
    ensures
        index is None ==> row is None,
        index matches Some(at) ==> {
            let hz = trace.points@[at as int].freq_hz;
            let values = rows[at as int];
            &&& at >= rows.len() ==> row is None
            &&& at < rows.len() && trace.format@ == "z"@ ==> (row is Some <==> values.len() == 3)
            &&& at < rows.len() && trace.format@ == "z"@ && values.len() == 3 ==> reading
                == if values[1].finite() && values[2].finite() {
                Some((hz, values[1], values[2]))
            } else {
                None
            }
            &&& at < rows.len() && trace.format@ == "ri"@ ==> (row is Some <==> values.len() == 2)
            &&& at < rows.len() && trace.format@ == "ri"@ && values.len() == 2 ==> row == Some(
                SmithRow::Reflection { frequency: hz, re: values[0], im: values[1] },
            ) && reading == if converted.0.finite() && converted.1.finite() {
                Some((hz, converted.0, converted.1))
            } else {
                None
            }
            &&& trace.format@ != "z"@ && trace.format@ != "ri"@ ==> row is None
        },
{
    reveal_strlit("z");
    reveal_strlit("ri");
    assert("z"@.len() == 1 && "ri"@.len() == 2);
    if index is Some {
        assert(trace@.points[index->0 as int] == trace.points@[index->0 as int]@);
    }
}

/// Where markers are read: on the current sweep its own rows, and on a hold or
/// an envelope what it has stored, while it is switched on and belongs to the
/// sweep's grid. A Smith chart has no envelopes.
pub proof fn law_targets_read_their_own_rows(tools: AnalysisTools, trace: SweepData)
    ensures
        tools.target is Current ==> tools.target_model(trace@) is Some && tools.target_model(
            trace@,
        )->0.len() == trace.points@.len() && (forall|i: int|
            0 <= i < trace.points@.len() ==> #[trigger] tools.target_model(trace@)->0[i]
                == trace.points@[i].values@),
        tools.target is Hold && tools.target_model(trace@) is Some ==> tools.hold
            && tools.held is Some && tools.target_model(trace@)->0 == row_views(tools.held->0@),
        tools.target is Maximum && tools.target_model(trace@) is Some ==> tools.max_hold
            && !tools.smith && tools.maxima is Some && tools.target_model(trace@)->0 == row_views(
            tools.maxima->0@,
        ),
        tools.target is Minimum && tools.target_model(trace@) is Some ==> tools.min_hold
            && !tools.smith && tools.minima is Some && tools.target_model(trace@)->0 == row_views(
            tools.minima->0@,
        ),
        !(tools.target is Current) && tools.target_model(trace@) is Some ==> tools.latest is Some
            && tools.latest->0.data.mode == trace.mode && tools.latest->0.data.format@
            == trace.format@ && tools.latest->0.data.points@.len() == trace.points@.len() && (
        forall|i: int|
            0 <= i < trace.points@.len() ==> (
            #[trigger] tools.latest->0.data.points@[i]).freq_hz.rank()
                == trace.points@[i].freq_hz.rank()),
        tools.latest is Some && on_same_grid(tools.latest->0.data@, trace@) ==> (tools.target is Hold
            && tools.hold && tools.held is Some || tools.target is Maximum && tools.max_hold
            && !tools.smith && tools.maxima is Some || tools.target is Minimum && tools.min_hold
            && !tools.smith && tools.minima is Some ==> tools.target_model(trace@) is Some),
{
    let points = trace@.points;
    assert forall|i: int| 0 <= i < trace.points@.len() implies #[trigger] rows_of(points)[i]
        == trace.points@[i].values@ by {
        assert(points[i] == trace.points@[i]@);
    }
    if !(tools.target is Current) && tools.target_model(trace@) is Some {
        let old = tools.latest->0.data;
        assert(old@.points.len() == old.points@.len());
        assert forall|i: int| 0 <= i < trace.points@.len() implies (
        #[trigger] old.points@[i]).freq_hz.rank() == trace.points@[i].freq_hz.rank() by {
            assert(old@.points[i] == old.points@[i]@);
            assert(points[i] == trace.points@[i]@);
        }
    }
}

/// Two sweeps share a grid where receiver, format, frequencies and widths agree.
pub proof fn law_grids_agree_in_everything(a: &SweepData, b: &SweepData, same: bool, index: int)
    requires
        call_ensures(same_grid, (a, b), same),
        0 <= index < a.points@.len(),
    ensures
        same ==> a.mode == b.mode && a.format@ == b.format@ && a.points@.len() == b.points@.len()
            && !a.points@[index].freq_hz.is_nan() && a.points@[index].freq_hz.rank()
            == b.points@[index].freq_hz.rank() && a.points@[index].values@.len()
            == b.points@[index].values@.len(),
        a@ == b@ && (forall|i: int|
            0 <= i < a.points@.len() ==> !(#[trigger] a.points@[i]).freq_hz.is_nan()) ==> same,
{
    assert(a@.points.len() == a.points@.len() && b@.points.len() == b.points@.len());
    assert(a@.points[index] == a.points@[index]@);
    if same {
        assert(b@.points[index] == b.points@[index]@);
    }
    if a@ == b@ && (forall|i: int|
        0 <= i < a.points@.len() ==> !(#[trigger] a.points@[i]).freq_hz.is_nan()) {
        assert forall|i: int| 0 <= i < a@.points.len() implies (
        #[trigger] a@.points[i]).freq_hz.equals(b@.points[i].freq_hz) by {
            assert(a@.points[i] == a.points@[i]@);
            assert(!a.points@[i].freq_hz.is_nan());
        }
    }
}

/// Units follow the quantity: an angle is in degrees, an impedance and its parts
/// in ohms, a loss in decibels, a delay in seconds and a level in decibels over
/// a milliwatt. A magnitude, a part of a reflection coefficient and VSWR have
/// none. A difference of levels is in decibels, any other in its own unit.
pub proof fn law_units_follow_the_quantity(
    trace: &SweepData,
    column: usize,
    unit: Unit,
    text: &'static str,
    apart: Unit,
    alone: Unit,
)
    requires
        call_ensures(column_unit, (trace, column), unit),
        call_ensures(Unit::text, (unit,), text),
        call_ensures(difference_unit, (trace, column, true), apart),
        call_ensures(difference_unit, (trace, column, false), alone),
    ensures
        trace.format@ == "z"@ ==> text@ == "ohm"@,
        trace.format@ == "loss"@ ==> text@ == "dB"@,
        trace.format@ == "delay"@ ==> text@ == "s"@,
        trace.format@ == "ma"@ && column == 1 ==> text@ == "deg"@,
        trace.format@ == "ma"@ && column != 1 ==> text@ == ""@,
        trace.format@ == "ri"@ || trace.format@ == "vswr"@ ==> text@ == ""@,
        trace.format@ == ""@ && trace.mode is Spec ==> text@ == "dBm"@,
        alone == unit,
        unit is DecibelMilliwatts ==> apart is Decibels,
        !(unit is DecibelMilliwatts) ==> apart == unit,
{
    reveal_strlit("");
    reveal_strlit("ri");
    reveal_strlit("ma");
    reveal_strlit("z");
    reveal_strlit("loss");
    reveal_strlit("vswr");
    reveal_strlit("delay");
    assert(""@.len() == 0 && "ri"@.len() > 0 && "ma"@.len() > 0 && "z"@.len() > 0);
    assert("loss"@.len() > 0 && "vswr"@.len() > 0 && "delay"@.len() > 0);
    assert("ri"@[0] == 'r' && "ma"@[0] == 'm' && "z"@[0] == 'z');
    assert("loss"@[0] == 'l' && "vswr"@[0] == 'v' && "delay"@[0] == 'd');
}

/// Captions follow the quantity of a raw column.
pub proof fn law_columns_are_named_by_quantity(
    format: &str,
    column: usize,
    language: Language,
    caption: Caption,
)
    requires
        call_ensures(column_label, (format, column, language), caption),
    ensures
        format@ == "z"@ && column == 0 ==> caption == Caption::Literal("|Z| (ohm)"),
        format@ == "z"@ && column == 1 ==> caption == Caption::Literal("R (ohm)"),
        format@ == "z"@ && column == 2 ==> caption == Caption::Literal("X (ohm)"),
        format@ == "ri"@ && column == 0 ==> caption == Caption::Literal("Re"),
        format@ == "ri"@ && column == 1 ==> caption == Caption::Literal("Im"),
        format@ == "ma"@ && column == 0 ==> caption == (Caption::Entry {
            language,
            key: Text::AnalysisMagnitude,
        }),
        format@ == "ma"@ && column == 1 ==> caption == (Caption::Entry {
            language,
            key: Text::Phase,
        }),
        format@ == "loss"@ ==> caption == Caption::Literal("dB"),
        format@ == "delay"@ ==> caption == Caption::Literal("s"),
        format@ == "vswr"@ ==> caption == Caption::Literal("VSWR"),
        format@ == ""@ ==> caption == (Caption::Entry { language, key: Text::Level }),
{
    reveal_strlit("");
    reveal_strlit("ri");
    reveal_strlit("ma");
    reveal_strlit("z");
    reveal_strlit("loss");
    reveal_strlit("vswr");
    reveal_strlit("delay");
    assert(""@.len() == 0 && "ri"@.len() > 0 && "ma"@.len() > 0 && "z"@.len() > 0);
    assert("loss"@.len() > 0 && "vswr"@.len() > 0 && "delay"@.len() > 0);
    assert("ri"@[0] == 'r' && "ma"@[0] == 'm' && "z"@[0] == 'z');
    assert("loss"@[0] == 'l' && "vswr"@[0] == 'v' && "delay"@[0] == 'd');
}

/// The words of an overlay of an impedance are those of its kind and of its
/// quantity, one after the other.
pub proof fn law_overlay_names_join_kind_and_quantity(
    kind: usize,
    format: &str,
    column: usize,
    language: Language,
    caption: Caption,
)
    requires
        kind < 3,
        call_ensures(overlay_name, (kind, format, column, language), caption),
    ensures
        format@ == "z"@ && column < 3 && language is English ==> caption is Literal
            && caption->Literal_0@ == (if kind == 0 {
            "Hold "@
        } else if kind == 1 {
            "Max "@
        } else {
            "Min "@
        }) + (if column == 0 {
            "|Z|"@
        } else if column == 1 {
            "R"@
        } else {
            "X"@
        }),
        format@ != "z"@ || column >= 3 ==> caption == (Caption::Entry {
            language,
            key: if kind == 0 {
                Text::AnalysisHold
            } else if kind == 1 {
                Text::AnalysisMaxHold
            } else {
                Text::AnalysisMinHold
            },
        }),
{
    reveal_strlit("Hold |Z|");
    reveal_strlit("Hold R");
    reveal_strlit("Hold X");
    reveal_strlit("Max |Z|");
    reveal_strlit("Max R");
    reveal_strlit("Max X");
    reveal_strlit("Min |Z|");
    reveal_strlit("Min R");
    reveal_strlit("Min X");
    reveal_strlit("Hold ");
    reveal_strlit("Max ");
    reveal_strlit("Min ");
    reveal_strlit("|Z|");
    reveal_strlit("R");
    reveal_strlit("X");
    assert("Hold |Z|"@ =~= "Hold "@ + "|Z|"@);
    assert("Hold R"@ =~= "Hold "@ + "R"@);
    assert("Hold X"@ =~= "Hold "@ + "X"@);
    assert("Max |Z|"@ =~= "Max "@ + "|Z|"@);
    assert("Max R"@ =~= "Max "@ + "R"@);
    assert("Max X"@ =~= "Max "@ + "X"@);
    assert("Min |Z|"@ =~= "Min "@ + "|Z|"@);
    assert("Min R"@ =~= "Min "@ + "R"@);
    assert("Min X"@ =~= "Min "@ + "X"@);
}

/// Captions of what markers are read from.
pub proof fn law_targets_are_named(target: MarkerTarget, language: Language, caption: Caption)
    requires
        call_ensures(MarkerTarget::label, (target, language), caption),
    ensures
        target is Current <==> caption == (Caption::Entry { language, key: Text::AnalysisCurrent }),
        target is Hold <==> caption == (Caption::Entry { language, key: Text::AnalysisHold }),
        target is Maximum <==> caption == (Caption::Entry { language, key: Text::AnalysisMaxHold }),
        target is Minimum <==> caption == (Caption::Entry { language, key: Text::AnalysisMinHold }),
{
}

/// Whether a curve shows one column of stored rows: a point for every sample
/// that both have, at the sweep's frequency, with the stored reading.
pub open spec fn shows_stored(
    curve: Series,
    data: SweepData,
    rows: Seq<Vec<Real>>,
    column: int,
) -> bool {
    &&& curve.points@.len() == if data.points@.len() < rows.len() {
        data.points@.len()
    } else {
        rows.len()
    }
    &&& forall|i: int|
        0 <= i < curve.points@.len() ==> (#[trigger] curve.points@[i]).0 == data.points@[i].freq_hz
            && (column < rows[i]@.len() ==> curve.points@[i].1 == rows[i]@[column])
}

proof fn lemma_shows_stored(
    curve: Series,
    data: SweepData,
    rows: Vec<Vec<Real>>,
    column: usize,
    model: SeriesModel,
)
    requires
        curve@ == model,
        model.points == overlay_points(data@.points, row_views(rows@), column as int),
    ensures
        shows_stored(curve, data, rows@, column as int),
{
    assert forall|i: int| 0 <= i < curve.points@.len() implies (#[trigger] curve.points@[i]).0
        == data.points@[i].freq_hz && (column < rows@[i]@.len() ==> curve.points@[i].1
        == rows@[i]@[column as int]) by {
        assert(data@.points[i] == data.points@[i]@);
        assert(row_views(rows@)[i] == rows@[i]@);
    }
}

/// Overlays show what is stored of the columns that are asked for: first the
/// held sweep, then the maximum, then the minimum, each where it is switched on
/// and in a colour of its own.
pub proof fn law_overlays_show_what_is_stored(
    tools: &mut AnalysisTools,
    columns: &Vec<usize>,
    series: Vec<Series>,
    place: int,
)
    requires
        call_ensures(AnalysisTools::overlay_series, (tools, columns), series),
        old(tools).latest is Some,
        0 <= place < columns@.len(),
    ensures
        ({
            let data = old(tools).latest->0.data;
            let width = columns@.len() as int;
            let column = columns@[place] as int;
            let held: int = if old(tools).hold && old(tools).held is Some {
                1
            } else {
                0
            };
            let maximum: int = if old(tools).max_hold && old(tools).maxima is Some {
                1
            } else {
                0
            };
            let minimum: int = if old(tools).min_hold && old(tools).minima is Some {
                1
            } else {
                0
            };
            let second = if held == 1 {
                width
            } else {
                0
            };
            let third = if maximum == 1 {
                second + width
            } else {
                second
            };
            &&& series@.len() == if minimum == 1 {
                third + width
            } else {
                third
            }
            &&& held == 1 ==> shows_stored(
                series@[place],
                data,
                old(tools).held->0@,
                column,
            ) && series@[place].color == (Color { r: 0x28, g: 0x99, b: 0xd0, a: 0xff })
            &&& maximum == 1 ==> shows_stored(
                series@[second + place],
                data,
                old(tools).maxima->0@,
                column,
            ) && series@[second + place].color == (Color { r: 0xe0, g: 0x65, b: 0x40, a: 0xff })
            &&& minimum == 1 ==> shows_stored(
                series@[third + place],
                data,
                old(tools).minima->0@,
                column,
            ) && series@[third + place].color == (Color { r: 0x92, g: 0x68, b: 0xce, a: 0xff })
        }),
{
    let data = old(tools).latest->0.data;
    let models = old(tools).overlay_model(data@, columns@);
    let column = columns@[place];
    assert(series_models(series@) == models);
    assert forall|k: int| 0 <= k < series@.len() implies (#[trigger] series@[k])@ == models[k] by {
        assert(series_models(series@)[k] == series@[k]@);
    }
    let width = columns@.len() as int;
    let second = if old(tools).hold && old(tools).held is Some {
        width
    } else {
        0
    };
    let third = if old(tools).max_hold && old(tools).maxima is Some {
        second + width
    } else {
        second
    };
    if old(tools).hold && old(tools).held is Some {
        lemma_shows_stored(series@[place], data, old(tools).held->0, column, models[place]);
    }
    if old(tools).max_hold && old(tools).maxima is Some {
        lemma_shows_stored(
            series@[second + place],
            data,
            old(tools).maxima->0,
            column,
            models[second + place],
        );
    }
    if old(tools).min_hold && old(tools).minima is Some {
        lemma_shows_stored(
            series@[third + place],
            data,
            old(tools).minima->0,
            column,
            models[third + place],
        );
    }
}

/// Whether a sweep goes on where the last one ended: it is of the same session,
/// was measured under the same conditions and has the same grid.
pub open spec fn goes_on(tools: AnalysisTools, snapshot: CompletedSweep) -> bool {
    &&& tools.latest is Some
    &&& tools.latest->0.session_id == snapshot.session_id
    &&& tools.latest->0.settings@ == snapshot.settings@
    &&& tools.latest->0.data.mode == snapshot.data.mode
    &&& tools.latest->0.data.format@ == snapshot.data.format@
    &&& tools.latest->0.data.points@.len() == snapshot.data.points@.len()
    &&& forall|i: int|
        0 <= i < snapshot.data.points@.len() ==> (
        #[trigger] tools.latest->0.data.points@[i]).freq_hz.equals(
            snapshot.data.points@[i].freq_hz,
        ) && tools.latest->0.data.points@[i].values@.len() == snapshot.data.points@[i].values@.len()
}

proof fn lemma_goes_on(tools: AnalysisTools, snapshot: &CompletedSweep)
    ensures
        tools.continues(*snapshot) <==> goes_on(tools, *snapshot),
{
    if tools.latest is Some {
        let a = tools.latest->0.data;
        let b = snapshot.data;
        assert(a@.points.len() == a.points@.len() && b@.points.len() == b.points@.len());
        if tools.continues(*snapshot) {
            assert forall|i: int| 0 <= i < b.points@.len() implies (
            #[trigger] a.points@[i]).freq_hz.equals(b.points@[i].freq_hz)
                && a.points@[i].values@.len() == b.points@[i].values@.len() by {
                assert(a@.points[i] == a.points@[i]@);
                assert(b@.points[i] == b.points@[i]@);
            }
        }
        if goes_on(tools, *snapshot) {
            assert forall|i: int| 0 <= i < a@.points.len() implies (
            #[trigger] a@.points[i]).freq_hz.equals(b@.points[i].freq_hz)
                && a@.points[i].values.len() == b@.points[i].values.len() by {
                assert(a@.points[i] == a.points@[i]@);
                assert(b@.points[i] == b.points@[i]@);
            }
        }
    }
}

/// A complete sweep is kept as it is. A hold that is switched on keeps the rows
/// it has and takes those of the sweep where it has none. A maximum is nowhere
/// below the sweep and a minimum nowhere above it. Where the sweep does not go
/// on from the last one, all of them start from it alone. Those that are
/// switched off have nothing.
pub proof fn law_sweeps_are_held(
    tools: &mut AnalysisTools,
    snapshot: &Arc<CompletedSweep>,
    distances: &Vec<Vec<Real>>,
    i: int,
    j: int,
)
    requires
        call_ensures(AnalysisTools::observe, (tools, snapshot, distances), ()),
        0 <= i < snapshot.data.points@.len(),
        0 <= j < snapshot.data.points@[i].values@.len(),
    ensures
        ({
            let before = *old(tools);
            let after = *final(tools);
            let fresh = !goes_on(before, **snapshot);
            let reading = snapshot.data.points@[i].values@[j];
            &&& after.latest == Some(*snapshot)
            &&& after.hold == before.hold && after.max_hold == before.max_hold
                && after.min_hold == before.min_hold
            &&& !before.hold ==> after.held is None
            &&& !before.max_hold ==> after.maxima is None
            &&& !before.min_hold ==> after.minima is None
            &&& before.hold ==> after.held is Some
            &&& before.max_hold ==> after.maxima is Some
            &&& before.min_hold ==> after.minima is Some
            &&& before.hold && (fresh || before.held is None) ==> after.held->0@.len()
                == snapshot.data.points@.len() && after.held->0@[i]@[j] == reading
            &&& before.hold && !fresh && before.held is Some ==> row_views(after.held->0@)
                == row_views(before.held->0@)
            &&& before.max_hold && (fresh || before.maxima is None) ==> after.maxima->0@[i]@[j]
                == reading
            &&& before.min_hold && (fresh || before.minima is None) ==> after.minima->0@[i]@[j]
                == reading
            &&& before.max_hold && !fresh && before.maxima is Some && i < before.maxima->0@.len()
                && j < before.maxima->0@[i]@.len() ==> {
                let old_reading = before.maxima->0@[i]@[j];
                let new_reading = after.maxima->0@[i]@[j];
                &&& reading.finite() ==> new_reading.finite() && new_reading.rank()
                    >= reading.rank()
                &&& old_reading.finite() ==> new_reading.finite() && new_reading.rank()
                    >= old_reading.rank()
                &&& new_reading == reading || new_reading == old_reading
                &&& !reading.finite() ==> new_reading == old_reading
            }
            &&& before.min_hold && !fresh && before.minima is Some && i < before.minima->0@.len()
                && j < before.minima->0@[i]@.len() ==> {
                let old_reading = before.minima->0@[i]@[j];
                let new_reading = after.minima->0@[i]@[j];
                &&& reading.finite() ==> new_reading.finite() && new_reading.rank()
                    <= reading.rank()
                &&& old_reading.finite() ==> new_reading.finite() && new_reading.rank()
                    <= old_reading.rank()
                &&& new_reading == reading || new_reading == old_reading
                &&& !reading.finite() ==> new_reading == old_reading
            }
        }),
{
    let before = *old(tools);
    let after = *final(tools);
    lemma_goes_on(before, &**snapshot);
    let rows = rows_of(snapshot.data@.points);
    assert(snapshot.data@.points[i] == snapshot.data.points@[i]@);
    assert(rows[i] == snapshot.data.points@[i].values@);
    assert(rows.len() == snapshot.data.points@.len());
    if after.held is Some {
        assert(row_views(after.held->0@).len() == after.held->0@.len());
        if i < after.held->0@.len() {
            assert(row_views(after.held->0@)[i] == after.held->0@[i]@);
        }
    }
    if after.maxima is Some {
        assert(row_views(after.maxima->0@).len() == after.maxima->0@.len());
        if i < after.maxima->0@.len() {
            assert(row_views(after.maxima->0@)[i] == after.maxima->0@[i]@);
        }
        if before.maxima is Some && i < before.maxima->0@.len() {
            assert(row_views(before.maxima->0@)[i] == before.maxima->0@[i]@);
        }
    }
    if after.minima is Some {
        assert(row_views(after.minima->0@).len() == after.minima->0@.len());
        if i < after.minima->0@.len() {
            assert(row_views(after.minima->0@)[i] == after.minima->0@[i]@);
        }
        if before.minima is Some && i < before.minima->0@.len() {
            assert(row_views(before.minima->0@)[i] == before.minima->0@[i]@);
        }
    }
}

/// What a sweep does to the markers: where it goes on from the last one they
/// stay, else each goes to the nearest point of the new grid, where there is
/// one. Those that follow the peak then go to it, but on a Smith chart.
pub proof fn law_markers_follow_the_grid(
    tools: &mut AnalysisTools,
    snapshot: &Arc<CompletedSweep>,
    distances: &Vec<Vec<Real>>,
    at: int,
    index: Option<usize>,
)
    requires
        call_ensures(AnalysisTools::observe, (tools, snapshot, distances), ()),
        0 <= at < old(tools).markers@.len(),
        at < distances@.len(),
        call_ensures(
            nearest,
            (&snapshot.data, old(tools).markers@[at].frequency_hz, &distances@[at]),
            index,
        ),
    ensures
        ({
            let before = old(tools).markers@;
            let after = final(tools).markers@;
            let settled = if !goes_on(*old(tools), **snapshot) && index is Some {
                snapshot.data.points@[index->0 as int].freq_hz
            } else {
                before[at].frequency_hz
            };
            let peak = found(
                snapshot.data@.points,
                final(tools).target_model(snapshot.data@),
                final(tools).column as int,
                Search::Maximum,
                zero(),
            );
            &&& after.len() == before.len()
            &&& after[at].id == before[at].id
            &&& after[at].selected == before[at].selected
            &&& after[at].reference == before[at].reference
            &&& after[at].auto_peak == before[at].auto_peak
            &&& !before[at].auto_peak || old(tools).smith || peak is None ==> after[at].frequency_hz
                == settled
            &&& before[at].auto_peak && !old(tools).smith && peak is Some
                ==> after[at].frequency_hz == peak->0
        }),
        final(tools).next_id == old(tools).next_id,
{
    lemma_goes_on(*old(tools), &**snapshot);
    if index is Some {
        let k = index->0 as int;
        assert(snapshot.data@.points[k] == snapshot.data.points@[k]@);
    }
}

/// The column after a sweep: one that goes on, or has the receiver and the
/// format of the last, keeps it. Another one takes the fixed column, and without
/// one the angle of magnitude and angle, and the first column otherwise. The
/// first sweep after a restart keeps what was restored.
pub proof fn law_new_formats_choose_their_column(
    tools: &mut AnalysisTools,
    snapshot: &Arc<CompletedSweep>,
    distances: &Vec<Vec<Real>>,
)
    requires
        call_ensures(AnalysisTools::observe, (tools, snapshot, distances), ()),
    ensures
        ({
            let before = *old(tools);
            let kept = match before.latest {
                Some(latest) => latest.data.mode == snapshot.data.mode && latest.data.format@
                    == snapshot.data.format@,
                None => before.restored_column,
            };
            &&& kept ==> final(tools).column == before.column
            &&& !kept && before.fixed_column is Some ==> final(tools).column
                == before.fixed_column->0
            &&& !kept && before.fixed_column is None && snapshot.data.format@ == "ma"@ ==> final(tools).column == 1
            &&& !kept && before.fixed_column is None && snapshot.data.format@ != "ma"@ ==> final(tools).column == 0
            &&& !final(tools).restored_column
        }),
{
    lemma_goes_on(*old(tools), &**snapshot);
}

/// Markers that follow the peak go to the largest reading of the target, and no
/// others move. A Smith chart has no peak.
pub proof fn law_peaks_are_followed(tools: &mut AnalysisTools, trace: &SweepData, at: int)
    requires
        call_ensures(AnalysisTools::refresh_auto_peaks, (tools, trace), ()),
        0 <= at < old(tools).markers@.len(),
    ensures
        ({
            let before = old(tools).markers@[at];
            let after = final(tools).markers@[at];
            let peak = found(
                trace@.points,
                old(tools).target_model(trace@),
                old(tools).column as int,
                Search::Maximum,
                zero(),
            );
            &&& final(tools).markers@.len() == old(tools).markers@.len()
            &&& after == (Marker { frequency_hz: after.frequency_hz, ..before })
            &&& old(tools).smith || !before.auto_peak || peak is None ==> after == before
            &&& !old(tools).smith && before.auto_peak && peak is Some ==> after.frequency_hz
                == peak->0
        }),
{
}

/// Switching a hold switches that one alone. Switched off it forgets its rows,
/// switched on it starts from the sweep on display.
pub proof fn law_holds_are_switched_alone(
    tools: &mut AnalysisTools,
    kind: HoldKind,
    trace: &SweepData,
)
    requires
        call_ensures(AnalysisTools::toggle_hold, (tools, kind, Some(trace)), ()),
    ensures
        ({
            let before = *old(tools);
            let after = *final(tools);
            let rows = rows_of(trace@.points);
            &&& kind is Frozen ==> after.hold == !before.hold && after.max_hold == before.max_hold
                && after.min_hold == before.min_hold
            &&& kind is Maximum ==> after.max_hold == !before.max_hold && after.hold == before.hold
                && after.min_hold == before.min_hold
            &&& kind is Minimum ==> after.min_hold == !before.min_hold && after.hold == before.hold
                && after.max_hold == before.max_hold
            &&& !after.hold ==> after.held is None
            &&& !after.max_hold ==> after.maxima is None
            &&& !after.min_hold ==> after.minima is None
            &&& after.hold && before.held is None ==> optional_rows(after.held) == Some(rows)
            &&& after.max_hold && before.maxima is None ==> optional_rows(after.maxima) == Some(
                rows,
            )
            &&& after.min_hold && before.minima is None ==> optional_rows(after.minima) == Some(
                rows,
            )
            &&& after.hold && before.held is Some ==> optional_rows(after.held) == optional_rows(
                before.held,
            )
            &&& after.latest == before.latest && after.target == before.target && after.column
                == before.column
        }),
{
}

/// Starting the holds anew forgets what they had: each that is switched on has
/// the sweep on display, and without one they have nothing.
pub proof fn law_holds_start_anew(
    tools: &mut AnalysisTools,
    trace: &SweepData,
    other: &mut AnalysisTools,
)
    requires
        call_ensures(AnalysisTools::restart_holds, (tools, Some(trace)), ()),
        call_ensures(AnalysisTools::restart_holds, (other, None::<&SweepData>), ()),
    ensures
        ({
            let rows = rows_of(trace@.points);
            let after = *final(tools);
            &&& optional_rows(after.held) == if old(tools).hold {
                Some(rows)
            } else {
                None
            }
            &&& optional_rows(after.maxima) == if old(tools).max_hold {
                Some(rows)
            } else {
                None
            }
            &&& optional_rows(after.minima) == if old(tools).min_hold {
                Some(rows)
            } else {
                None
            }
        }),
        final(other).held is None && final(other).maxima is None && final(other).minima is None,
{
}

/// An envelope on its own: switched off it forgets, at first it takes the sweep,
/// and then it only grows to its side.
pub proof fn law_envelopes_grow_to_their_side(
    cache: &mut Option<Vec<Vec<Real>>>,
    enabled: bool,
    trace: &SweepData,
    maximum: bool,
    i: int,
    j: int,
)
    requires
        call_ensures(update_envelope, (cache, enabled, trace, maximum), ()),
        0 <= i < trace.points@.len(),
        0 <= j < trace.points@[i].values@.len(),
    ensures
        !enabled ==> *final(cache) is None,
        enabled ==> *final(cache) is Some,
        enabled && *old(cache) is None ==> (*final(cache))->0@[i]@[j]
            == trace.points@[i].values@[j],
        enabled && *old(cache) is Some && i < (*old(cache))->0@.len() && j < (*old(cache))->0@[i]@.len() ==> {
            let before = (*old(cache))->0@[i]@[j];
            let after = (*final(cache))->0@[i]@[j];
            let reading = trace.points@[i].values@[j];
            &&& after == before || after == reading
            &&& maximum && reading.finite() ==> after.rank() >= reading.rank()
            &&& maximum && before.finite() ==> after.rank() >= before.rank()
            &&& !maximum && reading.finite() ==> after.rank() <= reading.rank()
            &&& !maximum && before.finite() ==> after.rank() <= before.rank()
            &&& before.finite() || reading.finite() ==> after.finite()
        },
{
    let rows = rows_of(trace@.points);
    assert(trace@.points[i] == trace.points@[i]@);
    assert(rows[i] == trace.points@[i].values@);
    if *final(cache) is Some {
        let after = (*final(cache))->0;
        assert(row_views(after@).len() == after@.len());
        if i < after@.len() {
            assert(row_views(after@)[i] == after@[i]@);
        }
        if *old(cache) is Some {
            let before = (*old(cache))->0;
            assert(row_views(before@).len() == before@.len());
            if i < before@.len() {
                assert(row_views(before@)[i] == before@[i]@);
            }
        }
    }
}

/// The held sweep has the frequencies of the last one and the rows that were
/// held. It is there while the hold is switched on and has rows.
pub proof fn law_held_sweeps_keep_their_rows(
    tools: &AnalysisTools,
    trace: Option<SweepData>,
    i: int,
)
    requires
        call_ensures(AnalysisTools::held_trace, (tools,), trace),
    ensures
        trace is Some <==> tools.hold && tools.held is Some && tools.latest is Some,
        trace matches Some(data) ==> data.mode == tools.latest->0.data.mode && data.format@
            == tools.latest->0.data.format@ && data.points@.len()
            == tools.latest->0.data.points@.len() && (0 <= i < data.points@.len()
            ==> data.points@[i].freq_hz == tools.latest->0.data.points@[i].freq_hz && (i
            < tools.held->0@.len() ==> data.points@[i].values@ == tools.held->0@[i]@)),
{
    if trace is Some {
        let data = trace->0;
        let latest = tools.latest->0.data;
        assert(data@ == tools.held_model()->0);
        assert(data@.points.len() == data.points@.len());
        assert(latest@.points.len() == latest.points@.len());
        if 0 <= i < data.points@.len() {
            assert(data@.points[i] == data.points@[i]@);
            assert(latest@.points[i] == latest.points@[i]@);
            assert(row_views(tools.held->0@).len() == tools.held->0@.len());
            if i < tools.held->0@.len() {
                assert(row_views(tools.held->0@)[i] == tools.held->0@[i]@);
            }
        }
    }
}

/// Markers of a Smith chart stand on what was measured: the last sweep, or the
/// held one. An envelope was not measured.
pub proof fn law_smith_markers_stand_on_measurements(
    tools: &AnalysisTools,
    trace: Option<SweepData>,
    held: Option<SweepData>,
)
    requires
        call_ensures(AnalysisTools::marker_trace, (tools,), trace),
        call_ensures(AnalysisTools::held_trace, (tools,), held),
    ensures
        tools.target is Maximum || tools.target is Minimum ==> trace is None,
        tools.target is Current ==> (trace is Some <==> tools.latest is Some) && (trace is Some
            ==> trace->0@ == tools.latest->0.data@),
        tools.target is Hold ==> (trace is Some <==> held is Some) && (trace is Some ==> trace->0@
            == held->0@),
{
}

/// Whether one of the first `count` points has this frequency, with a finite
/// reading.
spec fn read_at(
    points: Seq<PointModel>,
    rows: Seq<Seq<Real>>,
    column: int,
    count: int,
    frequency: Real,
) -> bool {
    exists|i: int|
        0 <= i < count && i < rows.len() && column < rows[i].len() && rows[i][column].finite()
            && (#[trigger] points[i]).freq_hz.finite() && points[i].freq_hz == frequency
}

proof fn lemma_markable(points: Seq<PointModel>, rows: Seq<Seq<Real>>, column: int, count: int)
    requires
        0 <= count <= points.len(),
        0 <= column,
    ensures
        forall|i: int|
            0 <= i < count && i < rows.len() && column < rows[i].len() && rows[i][column].finite()
                && (#[trigger] points[i]).freq_hz.finite() ==> markable(
                points,
                Some(rows),
                column,
                count,
            ).contains(points[i].freq_hz),
        forall|k: int|
            0 <= k < markable(points, Some(rows), column, count).len() ==> read_at(
                points,
                rows,
                column,
                count,
                #[trigger] markable(points, Some(rows), column, count)[k],
            ),
    decreases count,
{
    if count > 0 {
        lemma_markable(points, rows, column, count - 1);
        let before = markable(points, Some(rows), column, count - 1);
        let after = markable(points, Some(rows), column, count);
        assert forall|i: int|
            0 <= i < count && i < rows.len() && column < rows[i].len() && rows[i][column].finite()
                && (#[trigger] points[i]).freq_hz.finite() implies after.contains(
            points[i].freq_hz,
        ) by {
            if i < count - 1 {
                assert(before.contains(points[i].freq_hz));
                let k = choose|k: int| 0 <= k < before.len() && before[k] == points[i].freq_hz;
                assert(after[k] == points[i].freq_hz);
            } else {
                assert(after[before.len() as int] == points[i].freq_hz);
            }
        }
        assert forall|k: int| 0 <= k < after.len() implies read_at(
            points,
            rows,
            column,
            count,
            #[trigger] after[k],
        ) by {
            if k < before.len() {
                assert(after[k] == before[k]);
                let i = choose|i: int|
                    0 <= i < count - 1 && i < rows.len() && column < rows[i].len()
                        && rows[i][column].finite() && (#[trigger] points[i]).freq_hz.finite()
                        && points[i].freq_hz == before[k];
                assert(points[i].freq_hz == after[k]);
            } else {
                assert(points[count - 1].freq_hz == after[k]);
            }
        }
    }
}

/// Markers can be put on every point whose frequency and whose reading in the
/// target's column are finite numbers, and on no other.
pub proof fn law_markers_fit_readable_points(
    tools: &AnalysisTools,
    trace: &SweepData,
    frequencies: Vec<Real>,
    rows: Seq<Seq<Real>>,
    at: int,
    k: int,
)
    requires
        call_ensures(AnalysisTools::marker_frequencies, (tools, trace), frequencies),
        tools.target_model(trace@) == Some(rows),
        0 <= at < trace.points@.len(),
        0 <= k < frequencies@.len(),
    ensures
        at < rows.len() && tools.column < rows[at].len() && rows[at][tools.column as int].finite()
            && trace.points@[at].freq_hz.finite() ==> frequencies@.contains(
            trace.points@[at].freq_hz,
        ),
        frequencies@[k].finite(),
        exists|i: int|
            0 <= i < trace.points@.len() && (#[trigger] trace.points@[i]).freq_hz
                == frequencies@[k],
{
    let points = trace@.points;
    let column = tools.column as int;
    lemma_markable(points, rows, column, points.len() as int);
    assert(points[at] == trace.points@[at]@);
    assert(read_at(points, rows, column, points.len() as int, frequencies@[k]));
    let i = choose|i: int|
        0 <= i < points.len() && i < rows.len() && column < rows[i].len() && rows[i][column].finite()
            && (#[trigger] points[i]).freq_hz.finite() && points[i].freq_hz == frequencies@[k];
    assert(points[i] == trace.points@[i]@);
}

/// The marker table compares with the first reference: it is marked as such, all
/// others show their difference to it, and without one every marker shows its
/// own reading. A Smith chart compares nothing.
pub proof fn law_tables_compare_with_the_reference(
    tools: &AnalysisTools,
    trace: &SweepData,
    distances: &Vec<Vec<Real>>,
    rows: Vec<TableRow>,
    at: int,
    reference: int,
    unit: Unit,
    sample: Option<(Real, Real)>,
)
    requires
        call_ensures(AnalysisTools::marker_table, (tools, trace, distances), rows),
        call_ensures(column_unit, (trace, tools.column), unit),
        0 <= at < tools.markers@.len(),
        at < distances@.len(),
        call_ensures(
            AnalysisTools::target_sample,
            (tools, trace, tools.markers@[at].frequency_hz, tools.column, &distances@[at]),
            sample,
        ),
    ensures
        rows@.len() == tools.markers@.len(),
        rows@[at].id == tools.markers@[at].id,
        rows@[at].selected == tools.markers@[at].selected,
        rows@[at].sample == sample,
        tools.smith || (forall|i: int|
            0 <= i < tools.markers@.len() ==> !(#[trigger] tools.markers@[i]).reference) ==> !rows@[at].is_reference
            && !rows@[at].delta,
        !tools.smith && 0 <= reference < tools.markers@.len() && tools.markers@[reference].reference
            && (forall|i: int| 0 <= i < reference ==> !(#[trigger] tools.markers@[i]).reference) ==> {
            &&& rows@[at].is_reference <==> tools.markers@[at].id == tools.markers@[reference].id
            &&& rows@[at].delta <==> tools.markers@[at].id != tools.markers@[reference].id
        },
        rows@[at].unit == if rows@[at].delta && unit is DecibelMilliwatts {
            Unit::Decibels
        } else {
            unit
        },
{
    let markers = tools.markers@;
    if !tools.smith && 0 <= reference < markers.len() && markers[reference].reference && (forall|
        i: int,
    |
        0 <= i < reference ==> !(#[trigger] markers[i]).reference) {
        assert(is_first_reference(markers, reference));
        let chosen = choose|i: int| is_first_reference(markers, i);
        assert(is_first_reference(markers, chosen));
        if chosen < reference {
            assert(!markers[chosen].reference);
        } else if reference < chosen {
            assert(!markers[reference].reference);
        }
    }
}

/// What stands behind a marker's number in the table.
pub proof fn law_table_suffixes(row: &TableRow, language: Language, caption: Option<Caption>)
    requires
        call_ensures(TableRow::suffix, (row, language), caption),
    ensures
        row.is_reference ==> caption == Some(
            Caption::Entry { language, key: Text::AnalysisReference },
        ),
        !row.is_reference && row.delta ==> caption == Some(
            Caption::Entry { language, key: Text::AnalysisDelta },
        ),
        !row.is_reference && !row.delta ==> caption is None,
{
}

/// Selecting a marker deselects all others. The first selected marker becomes
/// the one reference, or there is none.
pub proof fn law_one_selection_and_one_reference(
    tools: &mut AnalysisTools,
    id: u32,
    other: &mut AnalysisTools,
    reference: bool,
    at: int,
    i: int,
)
    requires
        call_ensures(AnalysisTools::select_marker, (tools, id), ()),
        call_ensures(AnalysisTools::set_reference, (other, reference), ()),
        0 <= i < old(tools).markers@.len(),
        0 <= at < old(other).markers@.len(),
        old(other).markers@[at].selected,
        forall|k: int| 0 <= k < at ==> !(#[trigger] old(other).markers@[k]).selected,
    ensures
        final(tools).markers@.len() == old(tools).markers@.len(),
        final(tools).markers@[i].selected <==> old(tools).markers@[i].id == id,
        final(tools).markers@[i].id == old(tools).markers@[i].id,
        final(tools).markers@[i].frequency_hz == old(tools).markers@[i].frequency_hz,
        final(other).markers@.len() == old(other).markers@.len(),
        final(other).markers@[at].reference == reference,
        forall|k: int|
            0 <= k < old(other).markers@.len() && k != at ==> !(
            #[trigger] final(other).markers@[k]).reference,
{
    let before = old(other).markers@;
    assert(is_first_selected(before, at));
    assert forall|k: int| 0 <= k < before.len() && k != at implies !(
    #[trigger] final(other).markers@[k]).reference by {
        if is_first_selected(before, k) && at < k {
            assert(!before[at].selected);
        }
    }
}

/// On a Smith chart no marker follows a peak or is a reference, and markers are
/// not read from an envelope. Otherwise all stays as it was.
pub proof fn law_smith_charts_have_no_differences(tools: &mut AnalysisTools, smith: bool, i: int)
    requires
        call_ensures(AnalysisTools::set_smith, (tools, smith), ()),
        0 <= i < old(tools).markers@.len(),
    ensures
        final(tools).smith == smith,
        final(tools).markers@.len() == old(tools).markers@.len(),
        smith ==> !final(tools).markers@[i].auto_peak && !final(tools).markers@[i].reference,
        !smith ==> final(tools).markers@ == old(tools).markers@ && final(tools).target == old(tools).target,
        final(tools).markers@[i].id == old(tools).markers@[i].id,
        final(tools).markers@[i].frequency_hz == old(tools).markers@[i].frequency_hz,
        final(tools).markers@[i].selected == old(tools).markers@[i].selected,
        smith ==> final(tools).target is Current || final(tools).target is Hold,
        old(tools).target is Current || old(tools).target is Hold ==> final(tools).target == old(tools).target,
{
}

/// What is restored of a panel: the switches as they were stored, the column
/// within the three that rows have, or the fixed one, and no measurement.
pub proof fn law_panels_come_back_without_measurements(
    tools: &mut AnalysisTools,
    config: &AnalysisConfig,
)
    requires
        call_ensures(AnalysisTools::restore_config, (tools, config), ()),
    ensures
        final(tools).latest is None,
        final(tools).held is None && final(tools).maxima is None && final(tools).minima is None,
        final(tools).hold == config.hold,
        final(tools).max_hold == config.max_hold,
        final(tools).min_hold == config.min_hold,
        old(tools).fixed_column matches Some(column) ==> final(tools).column == column,
        old(tools).fixed_column is None && config.column <= 2 ==> final(tools).column
            == config.column,
        old(tools).fixed_column is None && config.column > 2 ==> final(tools).column == 2,
        old(tools).smith ==> final(tools).target is Current || final(tools).target is Hold,
        !old(tools).smith || config.target is Current || config.target is Hold ==> final(tools).target == config.target,
        final(tools).restored_column,
        final(tools).next_id >= config.next_id,
        final(tools).markers@.len() <= 10,
        final(tools).trace_id == old(tools).trace_id,
        final(tools).language == old(tools).language,
{
    law_restored_markers_are_normal(config.markers@, config.next_id, old(tools).smith);
}

proof fn lemma_restored_are_stored(markers: Seq<Marker>, count: int)
    requires
        0 <= count <= markers.len(),
    ensures
        forall|k: int|
            0 <= k < restored_markers(markers, count).len() ==> exists|i: int|
                0 <= i < count && markers[i] == #[trigger] restored_markers(markers, count)[k],
        count > 0 && restorable(markers[0]) ==> restored_markers(markers, count).len() > 0
            && restored_markers(markers, count)[0] == markers[0],
    decreases count,
{
    if count > 0 {
        lemma_restored_are_stored(markers, count - 1);
        let before = restored_markers(markers, count - 1);
        let after = restored_markers(markers, count);
        assert forall|k: int| 0 <= k < after.len() implies exists|i: int|
            0 <= i < count && markers[i] == #[trigger] after[k] by {
            if k < before.len() {
                assert(after[k] == before[k]);
                let i = choose|i: int| 0 <= i < count - 1 && markers[i] == before[k];
                assert(markers[i] == after[k]);
            } else {
                assert(markers[count - 1] == after[k]);
            }
        }
    }
}

/// Every restored marker was stored, with this number at this frequency.
pub proof fn law_restored_markers_were_stored(
    tools: &mut AnalysisTools,
    config: &AnalysisConfig,
    k: int,
)
    requires
        call_ensures(AnalysisTools::restore_config, (tools, config), ()),
        0 <= k < final(tools).markers@.len(),
    ensures
        exists|i: int|
            0 <= i < config.markers@.len() && (#[trigger] config.markers@[i]).id == final(tools).markers@[k].id && config.markers@[i].frequency_hz == final(tools).markers@[k].frequency_hz,
{
    let kept = restored_markers(config.markers@, config.markers@.len() as int);
    lemma_restored_are_stored(config.markers@, config.markers@.len() as int);
    assert(0 <= k < kept.len());
    let i = choose|i: int| 0 <= i < config.markers@.len() && config.markers@[i] == kept[k];
    assert(config.markers@[i].id == final(tools).markers@[k].id);
}

proof fn lemma_narrowest(points: Seq<PointModel>, count: int)
    requires
        0 < count <= points.len(),
    ensures
        forall|i: int| 0 <= i < count ==> narrowest(points, count) <= (#[trigger] points[i]).values.len(),
        exists|i: int| 0 <= i < count && narrowest(points, count) == (#[trigger] points[i]).values.len(),
    decreases count,
{
    if count > 1 {
        lemma_narrowest(points, count - 1);
        let before = narrowest(points, count - 1);
        let i = choose|i: int| 0 <= i < count - 1 && before == (#[trigger] points[i]).values.len();
        assert(points[count - 1].values.len() < before || narrowest(points, count)
            == points[i].values.len());
    } else {
        assert(points[0].values.len() == narrowest(points, count));
    }
}

/// What the panel offers. Markers can be added on a sweep with a finite
/// frequency up to the limit, and removed while there are any. A Smith chart
/// offers no scalar actions. Columns can be chosen as far as every row has them.
pub proof fn law_panels_offer_what_is_possible(
    tools: &mut AnalysisTools,
    language: Language,
    trace: &SweepData,
    smith: bool,
    allow_sweep_center: bool,
    controls: Controls,
    i: int,
    ready: bool,
)
    requires
        call_ensures(
            AnalysisTools::controls_for_display,
            (tools, language, Some(trace), smith, allow_sweep_center),
            controls,
        ),
        call_ensures(AnalysisTools::target_ready, (&*final(tools), trace), ready),
    ensures
        ({
            let points = trace@.points;
            let before = *old(tools);
            let after = *final(tools);
            let some = before.markers@.len() > 0;
            &&& after.language == language && after.smith == smith
            &&& smith && (before.target is Maximum || before.target is Minimum)
                ==> after.target is Current
            &&& !smith || !(before.target is Maximum || before.target is Minimum) ==> after.target
                == before.target
            &&& controls.scalar <==> !smith
            &&& 0 <= i < points.len() && points[i].freq_hz.finite() ==> controls.usable
            &&& (forall|k: int| 0 <= k < points.len() ==> !(#[trigger] points[k]).freq_hz.finite())
                ==> !controls.usable
            &&& controls.can_remove <==> some
            &&& controls.can_add <==> controls.usable && before.markers@.len() < 10 && before.next_id
                < u32::MAX
            &&& controls.table <==> controls.usable && some
            &&& controls.ready <==> controls.table && ready
            &&& controls.columns > 0 ==> controls.table && !smith && before.fixed_column is None
            &&& controls.columns > 0 && 0 <= i < points.len() ==> controls.columns
                <= points[i].values.len() || points[i].values.len() > usize::MAX
            &&& controls.can_center ==> controls.ready && allow_sweep_center
            &&& controls.ready && allow_sweep_center && 0 <= i < before.markers@.len()
                && before.markers@[i].selected ==> controls.can_center
            &&& after.markers@.len() == before.markers@.len()
            &&& after.column <= before.column
            &&& 0 <= i < before.markers@.len() ==> after.markers@[i].id == before.markers@[i].id
                && after.markers@[i].selected == before.markers@[i].selected
            &&& 0 <= i < before.markers@.len() && smith ==> !after.markers@[i].reference
                && !after.markers@[i].auto_peak && after.markers@[i].frequency_hz
                == before.markers@[i].frequency_hz
            &&& 0 <= i < before.markers@.len() && !smith ==> after.markers@[i].reference
                == before.markers@[i].reference && after.markers@[i].auto_peak
                == before.markers@[i].auto_peak
        }),
{
    let points = trace@.points;
    if points.len() > 0 {
        lemma_narrowest(points, points.len() as int);
    }
    let markers = old(tools).markers@;
    if 0 <= i < markers.len() && markers[i].selected {
        lemma_some_first_selected(markers, i);
    }
}

proof fn lemma_some_first_selected(markers: Seq<Marker>, at: int)
    requires
        0 <= at < markers.len(),
        markers[at].selected,
    ensures
        exists|i: int| is_first_selected(markers, i),
    decreases at,
{
    if exists|k: int| 0 <= k < at && (#[trigger] markers[k]).selected {
        let k = choose|k: int| 0 <= k < at && (#[trigger] markers[k]).selected;
        lemma_some_first_selected(markers, k);
    } else {
        assert(is_first_selected(markers, at));
    }
}

/// The selected marker is one of the list that is selected, and there is none
/// only where no marker is.
pub proof fn law_the_selected_marker_is_selected(
    tools: &AnalysisTools,
    marker: Option<Marker>,
    i: int,
)
    requires
        call_ensures(AnalysisTools::selected_marker, (tools,), marker),
    ensures
        marker is Some ==> marker->0.selected && tools.markers@.contains(marker->0),
        0 <= i < tools.markers@.len() && tools.markers@[i].selected ==> marker is Some,
{
}

/// Choosing what markers read, or which column: a Smith chart has no envelopes,
/// a fixed column stays, and markers that follow the peak go to the peak of what
/// is read now. The others stay.
pub proof fn law_choices_move_peak_markers(
    tools: &mut AnalysisTools,
    target: MarkerTarget,
    trace: &SweepData,
    other: &mut AnalysisTools,
    column: usize,
    i: int,
)
    requires
        call_ensures(AnalysisTools::choose_target, (tools, target, Some(trace)), ()),
        call_ensures(AnalysisTools::choose_column, (other, column, trace), ()),
    ensures
        old(tools).smith && (target is Maximum || target is Minimum) ==> final(tools).target == old(tools).target,
        !old(tools).smith || !(target is Maximum || target is Minimum) ==> final(tools).target
            == target,
        final(tools).column == old(tools).column,
        0 <= i < old(tools).markers@.len() ==> final(tools).markers@.len() == old(tools).markers@.len() && (!old(tools).markers@[i].auto_peak || old(tools).smith || target
            == old(tools).target ==> final(tools).markers@[i] == old(tools).markers@[i]),
        0 <= i < old(tools).markers@.len() && old(tools).markers@[i].auto_peak && !old(tools).smith && target != old(tools).target && usable(trace@.points) && final(tools).extremum_model(trace@, Search::Maximum, zero()) is Some ==> final(tools).markers@[i].frequency_hz == final(tools).extremum_model(
            trace@,
            Search::Maximum,
            zero(),
        )->0,
        old(other).fixed_column is None ==> final(other).column == column,
        old(other).fixed_column is Some ==> final(other).column == old(other).column && final(other).markers@ == old(other).markers@,
        final(other).target == old(other).target,
        0 <= i < old(other).markers@.len() ==> final(other).markers@.len() == old(other).markers@.len() && (!old(other).markers@[i].auto_peak || old(other).smith || column
            == old(other).column ==> final(other).markers@[i] == old(other).markers@[i]),
        0 <= i < old(other).markers@.len() && old(other).markers@[i].auto_peak && !old(other).smith && old(other).fixed_column is None && column != old(other).column && final(other).extremum_model(trace@, Search::Maximum, zero()) is Some ==> final(other).markers@[i].frequency_hz == final(other).extremum_model(
            trace@,
            Search::Maximum,
            zero(),
        )->0,
{
}

/// Following the peak is switched for the selected marker alone, and a marker
/// that follows goes to the peak at once.
pub proof fn law_selected_markers_follow_the_peak(
    tools: &mut AnalysisTools,
    follow: bool,
    trace: &SweepData,
    at: int,
)
    requires
        call_ensures(AnalysisTools::set_auto_peak, (tools, follow, trace), ()),
        0 <= at < old(tools).markers@.len(),
    ensures
        ({
            let before = old(tools).markers@[at];
            let after = final(tools).markers@[at];
            let peak = old(tools).extremum_model(trace@, Search::Maximum, zero());
            let chosen = before.selected && forall|i: int|
                0 <= i < at ==> !(#[trigger] old(tools).markers@[i]).selected;
            &&& final(tools).markers@.len() == old(tools).markers@.len()
            &&& chosen ==> after.auto_peak == follow
            &&& !chosen ==> after.auto_peak == before.auto_peak
            &&& after.id == before.id && after.selected == before.selected && after.reference
                == before.reference
            &&& !old(tools).smith && after.auto_peak && peak is Some ==> after.frequency_hz
                == peak->0
            &&& old(tools).smith || !after.auto_peak || peak is None ==> after.frequency_hz
                == before.frequency_hz
        }),
{
}

/// A reading is the value at its row and column, and there is none elsewhere.
pub proof fn law_readings_stand_at_their_place(
    rows: &TargetRows,
    index: usize,
    column: usize,
    value: Option<Real>,
    has: bool,
)
    requires
        call_ensures(TargetRows::reading, (rows, index, column), value),
        call_ensures(TargetRows::has_row, (rows, index), has),
    ensures
        has <==> index < rows.rows().len(),
        value is Some <==> has && column < rows.rows()[index as int].len(),
        value is Some ==> value->0 == rows.rows()[index as int][column as int],
{
}

/// What does not touch measurements: the number, the language and the column of
/// a panel. A fixed column is also the one on display. What is forgotten are the
/// rows alone, never the settings or the markers.
pub proof fn law_panel_settings_are_independent(
    tools: &mut AnalysisTools,
    column: Option<usize>,
    cleared: &mut AnalysisTools,
    forgotten: &mut AnalysisTools,
    unmarked: &mut AnalysisTools,
    config: AnalysisConfig,
)
    requires
        call_ensures(AnalysisTools::set_column, (tools, column), ()),
        call_ensures(AnalysisTools::reset_holds, (cleared,), ()),
        call_ensures(AnalysisTools::invalidate_measurements, (forgotten,), ()),
        call_ensures(AnalysisTools::clear_markers, (unmarked,), ()),
        call_ensures(AnalysisTools::config, (&*old(tools),), config),
    ensures
        final(tools).fixed_column == column,
        column matches Some(fixed) ==> final(tools).column == fixed,
        column is None ==> final(tools).column == old(tools).column,
        final(tools).markers == old(tools).markers && final(tools).latest == old(tools).latest,
        final(cleared).held is None && final(cleared).maxima is None && final(cleared).minima is None,
        final(cleared).hold == old(cleared).hold && final(cleared).max_hold == old(cleared).max_hold
            && final(cleared).min_hold == old(cleared).min_hold && final(cleared).latest == old(cleared).latest && final(cleared).markers == old(cleared).markers,
        final(forgotten).latest is None && final(forgotten).held is None && final(forgotten).maxima is None && final(forgotten).minima is None,
        final(forgotten).markers == old(forgotten).markers && final(forgotten).hold == old(forgotten).hold && final(forgotten).max_hold == old(forgotten).max_hold && final(forgotten).min_hold
            == old(forgotten).min_hold && final(forgotten).column == old(forgotten).column,
        final(unmarked).markers@.len() == 0,
        final(unmarked).next_id == old(unmarked).next_id && final(unmarked).held == old(unmarked).held && final(unmarked).column == old(unmarked).column,
        config.markers@ == old(tools).markers@ && config.next_id == old(tools).next_id,
        config.hold == old(tools).hold && config.max_hold == old(tools).max_hold && config.min_hold
            == old(tools).min_hold,
        config.column == old(tools).column && config.target == old(tools).target,
{
}

/// The Chinese words of an overlay of an impedance join those of its kind and of
/// its quantity in the same way.
pub proof fn law_chinese_overlay_names_join_kind_and_quantity(
    kind: usize,
    format: &str,
    column: usize,
    caption: Caption,
)
    requires
        kind < 3,
        format@ == "z"@,
        column < 3,
        call_ensures(overlay_name, (kind, format, column, Language::SimplifiedChinese), caption),
    ensures
        caption is Literal,
        caption->Literal_0@ == (if kind == 0 {
            "\u{4fdd}\u{6301} "@
        } else if kind == 1 {
            "\u{6700}\u{5927} "@
        } else {
            "\u{6700}\u{5c0f} "@
        }) + (if column == 0 {
            "|Z|"@
        } else if column == 1 {
            "R"@
        } else {
            "X"@
        }),
{
    reveal_strlit("\u{4fdd}\u{6301} |Z|");
    reveal_strlit("\u{4fdd}\u{6301} R");
    reveal_strlit("\u{4fdd}\u{6301} X");
    reveal_strlit("\u{6700}\u{5927} |Z|");
    reveal_strlit("\u{6700}\u{5927} R");
    reveal_strlit("\u{6700}\u{5927} X");
    reveal_strlit("\u{6700}\u{5c0f} |Z|");
    reveal_strlit("\u{6700}\u{5c0f} R");
    reveal_strlit("\u{6700}\u{5c0f} X");
    reveal_strlit("\u{4fdd}\u{6301} ");
    reveal_strlit("\u{6700}\u{5927} ");
    reveal_strlit("\u{6700}\u{5c0f} ");
    reveal_strlit("|Z|");
    reveal_strlit("R");
    reveal_strlit("X");
    let kinds = seq!["\u{4fdd}\u{6301} "@, "\u{6700}\u{5927} "@, "\u{6700}\u{5c0f} "@];
    let quantities = seq!["|Z|"@, "R"@, "X"@];
    assert(caption->Literal_0@ =~= kinds[kind as int] + quantities[column as int]);
}

} // verus!

use kcsdi_gui::acquisition::{
    AcquisitionGroup, AcquisitionSettings, Checks, CompletedSweep, RunSettings, SweepPlan, TraceId,
    TraceRequest,
};
use kcsdi_gui::model::{
    Cal, DeviceError, Format, Lo, PointSettings, Rbw, Real, Reason, S11Params, S21Params, Segment,
    SegmentMetadata, SegmentPlan, SpecParams, StreamMode, SweepData, SweepPoint,
};

const R10K: Rbw = Rbw { hz: 10_000 };
const R1K: Rbw = Rbw { hz: 1_000 };

fn s11() -> S11Params {
    S11Params {
        cal: Cal::CalOff,
        format: Format::Z,
        points: 3,
        start_hz: 1_000_000,
        stop_hz: 2_000_000,
        rbw: Some(R10K),
    }
}

fn spec() -> SpecParams {
    SpecParams {
        cal: Cal::CalOff,
        lo: Lo::HighLo,
        points: 3,
        start_hz: 1_000_000,
        stop_hz: 2_000_000,
        rbw: R10K,
        ref_level_dbm: -10,
    }
}

fn s21() -> S21Params {
    S21Params {
        cal: Cal::CalOff,
        format: Format::Delay,
        lo: Lo::HighLo,
        points: 3,
        start_hz: 1_000_000,
        stop_hz: 2_000_000,
        rbw: Some(R10K),
    }
}

fn request(id: u64, settings: AcquisitionSettings) -> TraceRequest {
    TraceRequest { id: TraceId(id), settings, device: None }
}

/// Checks that find no fault with this many groups.
fn accepted(groups: usize) -> Checks {
    Checks { run: None, devices: (0..groups).map(|_| None).collect() }
}

#[test]
fn identical_wire_requests_share_one_ordered_group() {
    let reflection = AcquisitionSettings::S11(s11());
    let spectrum = AcquisitionSettings::Spec(spec());
    let plan = SweepPlan::from_requests(vec![
        request(7, reflection.clone()),
        request(2, spectrum.clone()),
        request(9, reflection.clone()),
        request(4, spectrum.clone()),
    ])
    .unwrap();
    assert_eq!(
        plan.groups,
        [
            AcquisitionGroup { settings: reflection, members: vec![TraceId(7), TraceId(9)] },
            AcquisitionGroup { settings: spectrum, members: vec![TraceId(2), TraceId(4)] },
        ]
    );
    assert_eq!(plan.run, RunSettings::default());
}

#[test]
fn each_acquisition_condition_separates_groups() {
    let base = s11();
    let different = [
        S11Params { cal: Cal::CalSys, ..base },
        S11Params { format: Format::Ma, ..base },
        S11Params { rbw: Some(R1K), ..base },
        S11Params { start_hz: 500_000, ..base },
        S11Params { stop_hz: 3_000_000, ..base },
        S11Params { points: 201, ..base },
    ];
    for changed in different {
        let plan = SweepPlan::from_requests(vec![
            request(1, AcquisitionSettings::S11(base)),
            request(2, AcquisitionSettings::S11(changed)),
        ])
        .unwrap();
        assert_eq!(plan.groups.len(), 2);
    }
    let base = spec();
    for changed in [
        SpecParams { cal: Cal::CalOn, ..base },
        SpecParams { lo: Lo::LowLo, ..base },
        SpecParams { rbw: R1K, ..base },
        SpecParams { ref_level_dbm: -20, ..base },
    ] {
        let plan = SweepPlan::from_requests(vec![
            request(1, AcquisitionSettings::Spec(base)),
            request(2, AcquisitionSettings::Spec(changed)),
        ])
        .unwrap();
        assert_eq!(plan.groups.len(), 2);
    }
}

#[test]
fn invalid_empty_duplicate_or_oversized_plans_cannot_run() {
    assert!(SweepPlan::from_requests(vec![]).is_err());
    let settings = AcquisitionSettings::S11(s11());
    let many: Vec<u64> = (1..=11).collect();
    for ids in [vec![0], vec![1, 1], many] {
        assert!(SweepPlan::from_requests(
            ids.into_iter().map(|id| request(id, settings.clone())).collect()
        )
        .is_err());
    }
    let plan =
        SweepPlan::from_requests((1..=10).map(|id| request(id, settings.clone())).collect())
            .unwrap();
    assert_eq!(plan.groups.len(), 1);
    assert_eq!(plan.groups[0].members.len(), 10);
    let repeated = SweepPlan {
        groups: vec![plan.groups[0].clone(), plan.groups[0].clone()],
        run: RunSettings::default(),
    };
    assert!(repeated.validate(&accepted(2)).is_err());
    let mut invalid = plan;
    invalid.groups[0].members.clear();
    assert!(invalid.validate(&accepted(1)).is_err());
    let mut unspecified = s11();
    unspecified.rbw = None;
    assert!(AcquisitionSettings::S11(unspecified).validate(&None).is_err());
}

#[test]
fn each_refusal_of_a_plan_has_its_reason() {
    let settings = AcquisitionSettings::S11(s11());
    let refused = |ids: Vec<u64>| {
        SweepPlan::from_requests(ids.into_iter().map(|id| request(id, settings.clone())).collect())
            .unwrap_err()
    };
    assert_eq!(refused(vec![]), DeviceError::InvalidParameter(Reason::VisibleTraces));
    assert_eq!(refused(vec![0]), DeviceError::InvalidParameter(Reason::TraceId));
    assert_eq!(refused(vec![1, 1]), DeviceError::InvalidParameter(Reason::TraceId));
    assert_eq!(
        refused((1..=11).collect()),
        DeviceError::InvalidParameter(Reason::TraceLimit)
    );
    let objection = SweepPlan::from_requests(vec![TraceRequest {
        id: TraceId(1),
        settings: settings.clone(),
        device: Some(DeviceError::Timeout),
    }]);
    assert_eq!(objection.unwrap_err(), DeviceError::Timeout);
    let mut unspecified = s11();
    unspecified.rbw = None;
    assert_eq!(
        AcquisitionSettings::S11(unspecified).validate(&None),
        Err(DeviceError::InvalidParameter(Reason::Bandwidth))
    );
    let group = |members: Vec<u64>| AcquisitionGroup {
        settings: settings.clone(),
        members: members.into_iter().map(TraceId).collect(),
    };
    let plan = |groups| SweepPlan { groups, run: RunSettings::default() };
    assert_eq!(
        plan(vec![]).validate(&accepted(0)),
        Err(DeviceError::InvalidParameter(Reason::VisibleTraces))
    );
    assert_eq!(
        plan(vec![group(vec![])]).validate(&accepted(1)),
        Err(DeviceError::InvalidParameter(Reason::Group))
    );
    assert_eq!(
        plan(vec![group(vec![0])]).validate(&accepted(1)),
        Err(DeviceError::InvalidParameter(Reason::Membership))
    );
    assert_eq!(
        plan(vec![group(vec![1])]).validate(&Checks {
            run: Some("no directory".to_owned()),
            devices: vec![None],
        }),
        Err(DeviceError::InvalidParameter(Reason::Other("no directory".to_owned())))
    );
    assert_eq!(
        plan(vec![group(vec![1])]).validate(&Checks {
            run: None,
            devices: vec![Some(DeviceError::NotConnected)],
        }),
        Err(DeviceError::NotConnected)
    );
    assert_eq!(plan(vec![group(vec![1, 2])]).validate(&accepted(1)), Ok(()));
}

#[test]
fn frequency_lists_need_three_to_a_thousand_and_one_ascending_entries() {
    let list = |frequencies_hz: Vec<u64>| AcquisitionSettings::List {
        settings: PointSettings::S11 { cal: Cal::CalOff, format: Format::Z, rbw: Some(R10K) },
        frequencies_hz,
    };
    let refused = Err(DeviceError::InvalidParameter(Reason::FrequencyList));
    assert_eq!(list(vec![1, 2]).validate(&None), refused);
    assert_eq!(list(vec![3, 2, 4]).validate(&None), refused);
    assert_eq!(list((0..1002).collect()).validate(&None), refused);
    assert_eq!(list(vec![5, 5, 6]).validate(&None), Ok(()));
    assert_eq!(list((0..1001).collect()).validate(&None), Ok(()));
    assert_eq!(list(vec![5, 5, 6]).points(), 3);
}

fn rows(mode: StreamMode, format: &str, count: usize) -> SweepData {
    SweepData {
        mode,
        format: format.to_owned(),
        points: (0..count)
            .map(|_| SweepPoint { freq_hz: Real { bits: 0 }, values: Vec::new() })
            .collect(),
    }
}

#[test]
fn a_sweep_is_complete_with_its_receiver_format_and_rows() {
    let settings = AcquisitionSettings::S21(s21());
    assert_eq!(settings.mode(), StreamMode::S21);
    assert_eq!(settings.format(), "delay");
    assert_eq!(settings.points(), 3);
    assert!(settings.accepts(&rows(StreamMode::S21, "delay", 3)));
    assert!(!settings.accepts(&rows(StreamMode::S11, "delay", 3)));
    assert!(!settings.accepts(&rows(StreamMode::S21, "ma", 3)));
    assert!(!settings.accepts(&rows(StreamMode::S21, "delay", 2)));
}

#[test]
fn segmented_sweeps_come_with_consistent_span_records() {
    let receiver = PointSettings::S11 { cal: Cal::CalOff, format: Format::Z, rbw: Some(R10K) };
    let segment = Segment { start_hz: 1_000_000, stop_hz: 2_000_000, points: 3 };
    assert!(SegmentPlan::new(receiver, vec![segment, segment], 1).is_none());
    let plan = SegmentPlan::new(receiver, vec![segment, segment], 6).unwrap();
    let settings = AcquisitionSettings::from(plan);
    assert_eq!(settings.points(), 6);
    for (count, accepted) in [(4, false), (5, true), (6, true), (7, false)] {
        assert_eq!(settings.accepts(&rows(StreamMode::S11, "z", count)), accepted);
    }
    let sweep = |segments| CompletedSweep {
        data: rows(StreamMode::S11, "z", 5),
        segments,
        settings: settings.clone(),
        session_id: 1,
        completed_at: 0,
    };
    assert!(!sweep(None).accepts_data());
    assert!(!sweep(Some(SegmentMetadata { consistent: false })).accepts_data());
    assert!(sweep(Some(SegmentMetadata { consistent: true })).accepts_data());
    let plain = CompletedSweep {
        data: rows(StreamMode::S11, "z", 3),
        segments: None,
        settings: AcquisitionSettings::S11(s11()),
        session_id: 1,
        completed_at: 0,
    };
    assert!(plain.accepts_data());
    assert!(!CompletedSweep { segments: Some(SegmentMetadata { consistent: true }), ..plain }
        .accepts_data());
}

use rapi::codec::{encode, DecodeError};
use rapi::coordinator::{
    comm_delta, receive, reverse_request, Args, Controller, Phase, Timing,
};
use rapi::req::{ReqType, Request};

fn stop() -> Option<Request> {
    Some(Request { req: ReqType::Stop, pid: 0 })
}

fn cont() -> Option<Request> {
    Some(Request { req: ReqType::Cont, pid: 0 })
}

fn first_broadcast(c: &mut Controller, from: u64, to: u64, counter: i64) -> Option<(u64, Request)> {
    for t in from..=to {
        if let Some(r) = c.tick(t, counter) {
            return Some((t, r));
        }
    }
    None
}

#[test]
fn standard_timing() {
    let t = Timing::standard();
    assert_eq!(t.guaranteed_ms, 400);
    assert_eq!(t.in_comm_ms, 100);
    assert_eq!(t.poll_ms, 1);
}

#[test]
fn quiet_job_is_suspended_at_in_comm_bound() {
    let mut c = Controller::new(Timing::standard(), 0);
    let got = first_broadcast(&mut c, 0, 1000, 0);
    assert_eq!(got, Some((100, stop().unwrap())));
    assert_eq!(c.phase, Phase::Suspended);
    assert_eq!(c.since_ms, 100);
}

#[test]
fn busy_job_runs_until_guaranteed_bound() {
    let mut c = Controller::new(Timing::standard(), 0);
    let got = first_broadcast(&mut c, 0, 1000, 3);
    assert_eq!(got, Some((400, stop().unwrap())));
    assert_eq!(c.phase, Phase::Suspended);
}

#[test]
fn suspended_job_resumes_after_dwell_whatever_the_counter() {
    for counter in [0, 1, 7, -2] {
        let mut c = Controller::new(Timing::standard(), 0);
        assert_eq!(c.tick(400, 1), stop());
        assert_eq!(c.tick(499, counter), None);
        assert_eq!(c.phase, Phase::Suspended);
        assert_eq!(c.tick(500, counter), cont());
        assert_eq!(c.phase, Phase::Running);
        assert_eq!(c.since_ms, 500);
    }
}

#[test]
fn negative_guaranteed_bound_never_switches() {
    let t = Timing { guaranteed_ms: -1, in_comm_ms: 100, poll_ms: 1 };
    let mut c = Controller::new(t, 0);
    for now in 0..2000u64 {
        let counter = [0, 1, -1, 5][(now % 4) as usize];
        assert_eq!(c.tick(now, counter), None);
    }
    assert_eq!(c.phase, Phase::Running);
    assert_eq!(c.since_ms, 0);
}

#[test]
fn full_cycle() {
    let mut c = Controller::new(Timing::standard(), 1000);
    assert_eq!(c.tick(1099, 0), None);
    assert_eq!(c.tick(1100, 0), stop());
    assert_eq!(c.tick(1200, 0), cont());
    assert_eq!(c.tick(1300, 2), None);
    assert_eq!(c.tick(1600, 2), stop());
    assert_eq!(c.tick(1700, 2), cont());
}

#[test]
fn clock_before_since_counts_as_no_time() {
    let mut c = Controller::new(Timing::standard(), 500);
    assert_eq!(c.tick(10, 0), None);
    assert_eq!(c.phase, Phase::Running);
}

#[test]
fn args_timeslice_is_guaranteed_bound() {
    let args = Args {
        _timeslice: -1,
        port: 8211,
        rapid_addrs: vec![String::from("node1"), String::from("node2")],
        rapid_port: 8210,
        debug: String::from("Error"),
    };
    let t = args.timing();
    assert_eq!(t, Timing { guaranteed_ms: -1, in_comm_ms: 100, poll_ms: 1 });
}

#[test]
fn comm_deltas() {
    assert_eq!(comm_delta(&Request { req: ReqType::CommBegin, pid: 0 }), 1);
    assert_eq!(comm_delta(&Request { req: ReqType::CommEnd, pid: 0 }), -1);
    assert_eq!(comm_delta(&Request { req: ReqType::Register, pid: 4 }), 0);
    assert_eq!(comm_delta(&Request { req: ReqType::Stop, pid: 0 }), 0);
}

#[test]
fn receive_decodes_and_moves_counter() {
    let b = encode(&Request { req: ReqType::CommBegin, pid: 0 });
    assert_eq!(receive(&b), Ok(1));
    let b = encode(&Request { req: ReqType::CommEnd, pid: 0 });
    assert_eq!(receive(&b), Ok(-1));
    let b = encode(&Request { req: ReqType::Unregister, pid: 9 });
    assert_eq!(receive(&b), Ok(0));
    assert_eq!(receive(&[4, 0, 0, 0]), Err(DecodeError::WrongLength { len: 4 }));
    assert_eq!(
        receive(&[7, 0, 0, 0, 0, 0, 0, 0]),
        Err(DecodeError::UnknownKind { ordinal: 7 })
    );
}

#[test]
fn counter_settles_under_every_interleaving() {
    let begin = Request { req: ReqType::CommBegin, pid: 0 };
    let end = Request { req: ReqType::CommEnd, pid: 0 };
    let orders = [
        [begin, begin, end],
        [begin, end, begin],
        [end, begin, begin],
    ];
    for order in orders {
        let mut counter: i64 = 0;
        for r in order.iter() {
            counter += comm_delta(r);
        }
        assert_eq!(counter, 1);
    }
}

#[test]
fn reverse_request_swaps_stop_and_cont() {
    let mut r = Request { req: ReqType::Stop, pid: 3 };
    assert_eq!(reverse_request(&mut r), Ok(()));
    assert_eq!(r, Request { req: ReqType::Cont, pid: 3 });
    assert_eq!(reverse_request(&mut r), Ok(()));
    assert_eq!(r, Request { req: ReqType::Stop, pid: 3 });
    let mut r = Request { req: ReqType::Register, pid: 3 };
    assert_eq!(reverse_request(&mut r), Err(()));
    assert_eq!(r, Request { req: ReqType::Register, pid: 3 });
}

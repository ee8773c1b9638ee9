use joke_scroller::readiness::{await_ready, check_readiness, Address, LinkStatus, Readiness};

const ADDR: Address = Address { ip: 0xC0A8_0105, prefix_len: 24 };

fn status(link_up: bool, address: Option<Address>) -> LinkStatus {
    LinkStatus { link_up, address }
}

#[test]
fn ready_needs_link_and_address() {
    assert_eq!(check_readiness(status(true, Some(ADDR))), Readiness::Ready(ADDR));
    assert_eq!(check_readiness(status(true, None)), Readiness::Wait { poll_ms: 500 });
    assert_eq!(check_readiness(status(false, Some(ADDR))), Readiness::Wait { poll_ms: 500 });
    assert_eq!(check_readiness(status(false, None)), Readiness::Wait { poll_ms: 500 });
}

#[test]
fn readiness_waits_through_link_drop() {
    let polls = vec![
        status(false, None),
        status(true, None),
        status(false, Some(ADDR)),
        status(false, None),
        status(true, None),
        status(true, Some(ADDR)),
        status(true, Some(ADDR)),
    ];
    assert_eq!(await_ready(&polls), Some((5, ADDR)));
}

#[test]
fn readiness_never_times_out() {
    let polls: Vec<LinkStatus> = (0..1000).map(|i| status(i % 2 == 0, if i % 3 == 0 { None } else { Some(ADDR) })).collect();
    assert_eq!(await_ready(&polls), Some((2, ADDR)));
    let down: Vec<LinkStatus> = (0..1000).map(|i| status(i % 2 == 0, None)).collect();
    assert_eq!(await_ready(&down), None);
    assert_eq!(await_ready(&Vec::new()), None);
}

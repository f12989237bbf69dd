use splice_alt::pairing::{
    pairing_begin, pairing_poll, PairingStep, PAIRING_MAX_POLLS, PAIRING_POLL_MS,
};

#[test]
fn sibling_already_present_pairs_at_once() {
    // the metadata file arrived first; the binary's event probes once
    // and finds it
    let w = pairing_begin();
    assert!(matches!(pairing_poll(&w, true), PairingStep::Paired));
}

#[test]
fn sibling_appearing_mid_window_pairs() {
    let mut w = pairing_begin();
    for _ in 0..4 {
        match pairing_poll(&w, false) {
            PairingStep::Wait { wait, delay_ms } => {
                assert_eq!(delay_ms, PAIRING_POLL_MS);
                w = wait;
            }
            _ => panic!("expected to keep waiting"),
        }
    }
    assert!(matches!(pairing_poll(&w, true), PairingStep::Paired));
}

#[test]
fn window_exhaustion_orphans_without_pairing() {
    let mut w = pairing_begin();
    let mut waits = 0;
    loop {
        match pairing_poll(&w, false) {
            PairingStep::Wait { wait, .. } => {
                waits += 1;
                w = wait;
            }
            PairingStep::Orphaned => break,
            PairingStep::Paired => panic!("must not pair without a sibling"),
        }
    }
    assert_eq!(waits, PAIRING_MAX_POLLS);
}

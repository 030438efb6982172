use kujira_std::callback::{CbResponse, CbStorage, CbUtils};

fn fresh() -> CbStorage {
    CbStorage { expecting_callback: None, check_message_slot: None }
}

fn messages(r: &Result<CbResponse<&'static str>, &'static str>) -> Vec<&'static str> {
    r.as_ref().unwrap().messages.clone()
}

#[test]
fn attaches_once_per_slot_and_again_in_the_next() {
    let mut cells = fresh();
    let empty: Result<CbResponse<&'static str>, &'static str> = Ok(CbResponse::new());

    // slot 10, first attach: the list becomes [M]
    let first = CbUtils::add_callback_check(10, &mut cells, empty, "M");
    assert_eq!(messages(&first), vec!["M"]);
    assert_eq!(cells.check_message_slot, Some(10));

    // second call, same slot, same result shape: unchanged, [M] not [M, M]
    let second = CbUtils::add_callback_check(10, &mut cells, first, "M");
    assert_eq!(messages(&second), vec!["M"]);

    // third call at slot 11: appends again, one per slot
    let third = CbUtils::add_callback_check(11, &mut cells, second, "M");
    assert_eq!(messages(&third), vec!["M", "M"]);
    assert_eq!(cells.check_message_slot, Some(11));
}

#[test]
fn repeated_attaches_in_one_slot_append_exactly_once() {
    let mut cells = fresh();
    let mut result: Result<CbResponse<u32>, ()> = Ok(CbResponse::new());
    for _ in 0..5 {
        result = CbUtils::add_callback_check(7, &mut cells, result, 99);
    }
    assert_eq!(result.unwrap().messages, vec![99]);
}

#[test]
fn failing_result_never_gains_the_message_but_advances_the_latch() {
    let mut cells = fresh();
    let failed: Result<CbResponse<u32>, &'static str> = Err("upstream failure");
    let out = CbUtils::add_callback_check(10, &mut cells, failed, 5);
    assert_eq!(out.unwrap_err(), "upstream failure");
    assert_eq!(cells.check_message_slot, Some(10));

    // the latch did advance, so a later success in the same slot does not
    // retry-append
    let ok: Result<CbResponse<u32>, &'static str> = Ok(CbResponse::new());
    let out = CbUtils::add_callback_check(10, &mut cells, ok, 5);
    assert_eq!(out.unwrap().messages, Vec::<u32>::new());
}

#[test]
fn failing_result_with_matching_latch_is_passed_through() {
    let mut cells = CbStorage { expecting_callback: Some(2), check_message_slot: Some(4) };
    let failed: Result<CbResponse<u32>, u8> = Err(3);
    let out = CbUtils::add_callback_check(4, &mut cells, failed, 5);
    assert_eq!(out.unwrap_err(), 3);
    assert_eq!(cells.check_message_slot, Some(4));
    assert_eq!(cells.expecting_callback, Some(2));
}

#[test]
fn attach_keeps_earlier_messages_and_the_counter() {
    let mut cells = CbStorage { expecting_callback: Some(9), check_message_slot: None };
    let start: Result<CbResponse<&'static str>, ()> = Ok(CbResponse::new().add_message("existing"));
    let out = CbUtils::add_callback_check(2, &mut cells, start, "check");
    assert_eq!(out.unwrap().messages, vec!["existing", "check"]);
    assert_eq!(cells.expecting_callback, Some(9));
}

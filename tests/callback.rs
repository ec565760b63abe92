use arch_contracts::callback::{
    count, execute, handle_callback, handle_error, instantiate, query, sudo, ExecuteMsg, GetCountResponse,
    InstantiateMsg, JobOutcome, QueryMsg, State, SudoMsg,
};
use arch_contracts::error::ContractError;

fn setup(start: i32) -> State {
    let creator = "creator".to_string();
    let (state, _res) = instantiate(&creator, InstantiateMsg { count: start });
    state
}

#[test]
fn callback() {
    let mut state = setup(100);

    // decrement the counter
    let _res = handle_callback(&mut state, 0);
    let value: GetCountResponse = query(&state, QueryMsg::GetCount);
    assert_eq!(99, value.count);

    // increment the counter
    let _res = handle_callback(&mut state, 1);
    let value = query(&state, QueryMsg::GetCount);
    assert_eq!(100, value.count);

    // return error
    let res = handle_callback(&mut state, 2);
    match res {
        Err(ContractError::SomeError) => {}
        _ => panic!("Must return some error"),
    }

    // do nothing
    let _res = handle_callback(&mut state, 3);
    let value = query(&state, QueryMsg::GetCount);
    assert_eq!(100, value.count);
}

#[test]
fn error_encountered() {
    let mut state = setup(100);

    let value = query(&state, QueryMsg::GetCount);
    assert_eq!(false, value.error_encountered);

    let module_name = "callback".to_string();
    let error_code = 1;
    let input_payload = "input_payload".to_string();
    let error_message = "error_message".to_string();
    let _res = handle_error(&mut state, module_name, error_code, input_payload, error_message);
    let value = query(&state, QueryMsg::GetCount);
    assert_eq!(true, value.error_encountered);

    // return error
    let res = handle_callback(&mut state, 2);
    match res {
        Err(ContractError::SomeError) => {}
        _ => panic!("Must return some error"),
    }

    // do nothing
    let _res = handle_callback(&mut state, 3);
    let value = query(&state, QueryMsg::GetCount);
    assert_eq!(100, value.count);
}

#[test]
fn instantiate_tags_owner_and_count() {
    let creator = "creator".to_string();
    let (state, res) = instantiate(&creator, InstantiateMsg { count: 100 });
    assert_eq!(state.count, 100);
    assert_eq!(state.owner, "creator");
    assert!(!state.error_encountered);
    let tags: Vec<(String, String)> =
        res.attributes.iter().map(|a| (a.key.clone(), a.value.clone())).collect();
    assert_eq!(
        tags,
        vec![
            ("method".to_string(), "instantiate".to_string()),
            ("owner".to_string(), "creator".to_string()),
            ("count".to_string(), "100".to_string()),
        ]
    );
    assert!(res.messages.is_empty());
}

#[test]
fn instantiate_writes_negative_count() {
    let creator = "creator".to_string();
    let (_state, res) = instantiate(&creator, InstantiateMsg { count: -2147483648 });
    assert_eq!(res.attributes[2].value, "-2147483648");
    let (_state, res) = instantiate(&creator, InstantiateMsg { count: 0 });
    assert_eq!(res.attributes[2].value, "0");
}

#[test]
fn unknown_jobs_change_nothing() {
    for job_id in [3u64, 4, 1000, u64::MAX] {
        let mut state = setup(7);
        let before = state.clone();
        let res = handle_callback(&mut state, job_id).unwrap();
        assert_eq!(state, before);
        assert_eq!(res.attributes[0].key, "action");
        assert_eq!(res.attributes[0].value, "handle_callback");
        assert_eq!(JobOutcome::from_job_id(job_id), JobOutcome::Ignored);
    }
}

#[test]
fn decrement_then_increment_restores_count() {
    for start in [0, -5, 100, i32::MAX] {
        let mut state = setup(start);
        handle_callback(&mut state, 0).unwrap();
        assert_eq!(state.count, start - 1);
        handle_callback(&mut state, 1).unwrap();
        assert_eq!(state.count, start);
    }
}

#[test]
fn failing_job_keeps_state() {
    for start in [i32::MIN, 0, 42, i32::MAX] {
        let mut state = setup(start);
        let before = state.clone();
        assert_eq!(handle_callback(&mut state, 2), Err(ContractError::SomeError));
        assert_eq!(state, before);
    }
}

#[test]
fn callback_overflow_is_refused() {
    let mut state = setup(i32::MIN);
    assert_eq!(handle_callback(&mut state, 0), Err(ContractError::Overflow));
    assert_eq!(state.count, i32::MIN);
    let mut state = setup(i32::MAX);
    assert_eq!(handle_callback(&mut state, 1), Err(ContractError::Overflow));
    assert_eq!(state.count, i32::MAX);
}

#[test]
fn error_flag_survives_callbacks() {
    let mut state = setup(10);
    assert!(!count(&state).error_encountered);
    let notice = SudoMsg::Error {
        module_name: "callback".to_string(),
        error_code: 9,
        input_payload: String::new(),
        error_message: "boom".to_string(),
    };
    let res = sudo(&mut state, notice).unwrap();
    assert_eq!(res.attributes[0].value, "handle_error");
    assert!(count(&state).error_encountered);
    assert_eq!(count(&state).count, 10);
    sudo(&mut state, SudoMsg::Callback { job_id: 0 }).unwrap();
    sudo(&mut state, SudoMsg::Callback { job_id: 1 }).unwrap();
    sudo(&mut state, SudoMsg::Callback { job_id: 77 }).unwrap();
    execute(&mut state, &"creator".to_string(), ExecuteMsg::Reset { count: 3 }).unwrap();
    assert!(count(&state).error_encountered);
    assert_eq!(count(&state).count, 3);
}

#[test]
fn reset_only_by_owner() {
    let mut state = setup(17);
    let res = execute(&mut state, &"anyone".to_string(), ExecuteMsg::Reset { count: 5 });
    assert_eq!(res, Err(ContractError::Unauthorized));
    assert_eq!(query(&state, QueryMsg::GetCount).count, 17);
    let res = execute(&mut state, &"creator".to_string(), ExecuteMsg::Reset { count: 5 }).unwrap();
    assert_eq!(res.attributes[0].value, "reset");
    assert_eq!(query(&state, QueryMsg::GetCount).count, 5);
}

#[test]
fn increment_adds_one() {
    let mut state = setup(17);
    let res = execute(&mut state, &"anyone".to_string(), ExecuteMsg::Increment).unwrap();
    assert_eq!(res.attributes[0].key, "action");
    assert_eq!(res.attributes[0].value, "increment");
    assert_eq!(query(&state, QueryMsg::GetCount).count, 18);
    let mut state = setup(i32::MAX);
    assert_eq!(execute(&mut state, &"anyone".to_string(), ExecuteMsg::Increment), Err(ContractError::Overflow));
    assert_eq!(state.count, i32::MAX);
}

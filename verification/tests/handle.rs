use authorization::authorization::Authorization;
use authorization::error::AuthorizationError;
use authorization::request::Request;

fn call(program_id: &str, function_name: &str, payload: &[u8]) -> Request {
    Request::new(program_id.to_string(), function_name.to_string(), payload.to_vec())
}

fn numbered(count: u8) -> Vec<Request> {
    (0..count).map(|n| call("token.aleo", "mint", &[n])).collect()
}

fn held(authorization: &Authorization) -> Vec<Request> {
    authorization.to_vec_deque().into_iter().collect()
}

#[test]
fn from_many_keeps_the_order() {
    let authorization = Authorization::from(numbered(5));
    assert_eq!(authorization.len(), 5);
    assert!(!authorization.is_empty());
    assert_eq!(held(&authorization), numbered(5));
}

#[test]
fn from_nothing_is_empty() {
    let authorization = Authorization::from(Vec::new());
    assert_eq!(authorization.len(), 0);
    assert!(authorization.is_empty());
    assert_eq!(authorization.peek_next(), Err(AuthorizationError::EmptyChain));
    assert_eq!(authorization.next(), Err(AuthorizationError::EmptyChain));
    assert_eq!(authorization.get(0), Err(AuthorizationError::IndexOutOfRange(0)));
    assert!(!authorization.is_fee_private());
    assert!(!authorization.is_fee_public());
}

#[test]
fn from_one_holds_that_request() {
    let request = call("token.aleo", "mint", &[1, 2]);
    let authorization = Authorization::from(request.clone());
    assert_eq!(authorization.len(), 1);
    assert_eq!(held(&authorization), vec![request]);
}

#[test]
fn from_reference_holds_a_copy() {
    let request = call("token.aleo", "mint", &[1, 2]);
    let authorization = Authorization::from(&request);
    assert_eq!(authorization.len(), 1);
    assert_eq!(authorization.next(), Ok(request.clone()));
    assert_eq!(request, call("token.aleo", "mint", &[1, 2]));
}

#[test]
fn next_drains_in_order() {
    let given = numbered(9);
    let authorization = Authorization::from(given.clone());
    let mut taken = Vec::new();
    while let Ok(request) = authorization.next() {
        taken.push(request);
    }
    assert_eq!(taken, given);
    assert!(authorization.is_empty());
    assert_eq!(authorization.next(), Err(AuthorizationError::EmptyChain));
}

#[test]
fn len_follows_next_and_push() {
    let authorization = Authorization::from(numbered(3));
    assert_eq!(authorization.len(), 3);
    authorization.next().unwrap();
    assert_eq!(authorization.len(), 2);
    authorization.next().unwrap();
    assert_eq!(authorization.len(), 1);
    authorization.push(call("fee.aleo", "pay", &[]));
    assert_eq!(authorization.len(), 2);
}

#[test]
fn peek_then_next_agree() {
    let authorization = Authorization::from(numbered(3));
    let peeked = authorization.peek_next();
    assert_eq!(authorization.len(), 3);
    let taken = authorization.next();
    assert_eq!(peeked, taken);
    assert_eq!(taken, Ok(numbered(3)[0].clone()));
    assert_eq!(authorization.peek_next(), Ok(numbered(3)[1].clone()));
}

#[test]
fn get_reads_each_position() {
    let authorization = Authorization::from(numbered(4));
    let sequence = authorization.to_vec_deque();
    for index in 0..authorization.len() {
        assert_eq!(authorization.get(index), Ok(sequence[index].clone()));
    }
    assert_eq!(authorization.get(4), Err(AuthorizationError::IndexOutOfRange(4)));
    assert_eq!(authorization.get(100), Err(AuthorizationError::IndexOutOfRange(100)));
    assert_eq!(authorization.len(), 4);
}

#[test]
fn clones_share_one_chain() {
    let first = Authorization::from(numbered(3));
    let second = first.clone();
    assert_eq!(second.next(), Ok(numbered(3)[0].clone()));
    assert_eq!(first.len(), 2);
    first.push(call("fee.aleo", "pay", &[]));
    assert_eq!(second.len(), 3);
    assert_eq!(first.next(), Ok(numbered(3)[1].clone()));
    assert_eq!(second.next(), Ok(numbered(3)[2].clone()));
    assert_eq!(first.next(), Ok(call("fee.aleo", "pay", &[])));
    assert!(first.is_empty());
    assert!(second.is_empty());
}

#[test]
fn replicate_is_equal_when_made() {
    let source = Authorization::from(numbered(3));
    source.next().unwrap();
    let replica = source.replicate();
    assert_eq!(held(&replica), held(&source));
    assert_eq!(replica.len(), 2);
}

#[test]
fn replicate_is_isolated() {
    let source = Authorization::from(numbered(3));
    let replica = source.replicate();
    source.push(call("fee.aleo", "pay", &[]));
    assert_eq!(source.len(), 4);
    assert_eq!(replica.len(), 3);
    replica.push(call("fee.aleo", "pay", &[1]));
    replica.push(call("fee.aleo", "pay", &[2]));
    assert_eq!(replica.len(), 5);
    assert_eq!(source.len(), 4);
    while replica.next().is_ok() {}
    assert!(replica.is_empty());
    assert_eq!(source.len(), 4);
    assert_eq!(source.peek_next(), Ok(numbered(3)[0].clone()));
}

#[test]
fn to_vec_deque_leaves_the_chain() {
    let authorization = Authorization::from(numbered(3));
    let mut copy = authorization.to_vec_deque();
    copy.pop_front();
    copy.clear();
    assert_eq!(authorization.len(), 3);
    assert_eq!(held(&authorization), numbered(3));
}

#[test]
fn fee_private_classification() {
    let authorization = Authorization::from(call("credits.aleo", "fee_private", &[1]));
    assert!(authorization.is_fee_private());
    assert!(!authorization.is_fee_public());
    authorization.push(call("token.aleo", "mint", &[]));
    assert_eq!(authorization.len(), 2);
    assert!(!authorization.is_fee_private());
    assert!(!authorization.is_fee_public());
    let shared = authorization.clone();
    shared.next().unwrap();
    shared.next().unwrap();
    assert!(authorization.is_empty());
    assert!(!authorization.is_fee_private());
    assert!(!authorization.is_fee_public());
}

#[test]
fn fee_public_classification() {
    let authorization = Authorization::from(call("credits.aleo", "fee_public", &[1]));
    assert!(authorization.is_fee_public());
    assert!(!authorization.is_fee_private());
    authorization.push(call("credits.aleo", "fee_public", &[1]));
    assert!(!authorization.is_fee_public());
    assert!(!authorization.is_fee_private());
}

#[test]
fn other_single_calls_are_no_fee() {
    let other_program = Authorization::from(call("token.aleo", "fee_private", &[]));
    assert!(!other_program.is_fee_private());
    assert!(!other_program.is_fee_public());
    let other_function = Authorization::from(call("credits.aleo", "transfer_private", &[]));
    assert!(!other_function.is_fee_private());
    assert!(!other_function.is_fee_public());
}

#[test]
fn scenario_of_four_requests() {
    let a = call("token.aleo", "mint", &[1]);
    let b = call("token.aleo", "transfer", &[2]);
    let c = call("swap.aleo", "trade", &[3]);
    let d = call("credits.aleo", "fee_public", &[4]);
    let authorization = Authorization::from(vec![a.clone(), b.clone(), c.clone()]);
    assert_eq!(authorization.next(), Ok(a));
    assert_eq!(authorization.len(), 2);
    authorization.push(d.clone());
    assert_eq!(held(&authorization), vec![b.clone(), c.clone(), d.clone()]);
    assert_eq!(authorization.get(2), Ok(d.clone()));
    assert_eq!(authorization.next(), Ok(b));
    assert_eq!(authorization.next(), Ok(c));
    assert_eq!(authorization.len(), 1);
    assert_eq!(authorization.peek_next(), Ok(d.clone()));
    assert_eq!(authorization.next(), Ok(d));
    assert_eq!(authorization.next(), Err(AuthorizationError::EmptyChain));
}

fn shareable<T: Send + Sync + Clone>(_: &T) -> bool {
    true
}

#[test]
fn handle_can_cross_threads() {
    let authorization = Authorization::from(numbered(2));
    assert!(shareable(&authorization));
}

#[test]
fn many_clones_take_turns() {
    let given = numbered(60);
    let handles: Vec<Authorization> = {
        let first = Authorization::from(given.clone());
        (0..6).map(|_| first.clone()).collect()
    };
    let mut taken = Vec::new();
    for turn in 0..60 {
        taken.push(handles[turn % 6].next().unwrap());
        assert_eq!(handles[(turn + 1) % 6].len(), 59 - turn);
    }
    assert_eq!(taken, given);
    for handle in &handles {
        assert_eq!(handle.next(), Err(AuthorizationError::EmptyChain));
    }
}

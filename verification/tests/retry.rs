use epitech_api::request::{Attempt, Request, Step};
use epitech_api::{Client, Error};

fn perform(
    request: Request,
    transport: &mut dyn FnMut(&str) -> Attempt,
) -> (Result<String, Error>, u32) {
    let mut calls = 0;
    let mut request = request;
    let mut step = request.start();
    loop {
        match step {
            Step::Done(result) => return (result, calls),
            Step::Get => {
                calls += 1;
                let outcome = transport(&request.url);
                let (after, next) = request.next(outcome);
                request = after;
                step = next;
            }
        }
    }
}

#[test]
fn default_budget_is_five_attempts() {
    let request = Client::default().make_request("/user");
    assert_eq!(request.remaining, 5);
    let (result, calls) = perform(request, &mut |_| Attempt::Failed);
    assert_eq!(result, Err(Error::RetryLimit));
    assert_eq!(calls, 5);
}

#[test]
fn every_failure_uses_one_attempt() {
    for budget in [1u32, 2, 3, 7, 20] {
        let (result, calls) = perform(Request::new("/user", budget), &mut |_| Attempt::Failed);
        assert_eq!(result, Err(Error::RetryLimit));
        assert_eq!(calls, budget);
    }
}

#[test]
fn no_budget_means_no_attempt() {
    let request = Request::new("/user", 0);
    assert_eq!(request.start(), Step::Done(Err(Error::RetryLimit)));
    let (result, calls) = perform(request, &mut |_| Attempt::Body(String::from("{}")));
    assert_eq!(result, Err(Error::RetryLimit));
    assert_eq!(calls, 0);
}

#[test]
fn first_body_is_returned_at_once() {
    let (result, calls) = perform(Request::new("/user", 5), &mut |_| {
        Attempt::Body(String::from("{\"login\":\"a\"}"))
    });
    assert_eq!(result, Ok(String::from("{\"login\":\"a\"}")));
    assert_eq!(calls, 1);
}

#[test]
fn body_after_failures_is_returned() {
    let mut seen = 0;
    let (result, calls) = perform(Request::new("/user", 5), &mut |_| {
        seen += 1;
        if seen < 3 {
            Attempt::Failed
        } else {
            Attempt::Body(String::from("third"))
        }
    });
    assert_eq!(result, Ok(String::from("third")));
    assert_eq!(calls, 3);
}

#[test]
fn body_on_last_attempt_is_returned() {
    let mut seen = 0;
    let (result, calls) = perform(Request::new("/user", 3), &mut |_| {
        seen += 1;
        if seen < 3 {
            Attempt::Failed
        } else {
            Attempt::Body(String::from("late"))
        }
    });
    assert_eq!(result, Ok(String::from("late")));
    assert_eq!(calls, 3);
}

#[test]
fn body_of_an_error_status_is_a_result() {
    let (result, _) = perform(Request::new("/user/nobody", 5), &mut |_| {
        Attempt::Body(String::from("{\"error\":\"not found\"}"))
    });
    assert_eq!(result, Ok(String::from("{\"error\":\"not found\"}")));
}

#[test]
fn every_attempt_goes_to_the_resolved_url() {
    let mut urls = Vec::new();
    let _ = perform(Request::new("/user", 3), &mut |url| {
        urls.push(String::from(url));
        Attempt::Failed
    });
    assert_eq!(urls, vec!["https://intra.epitech.eu/user?format=json"; 3]);
}

#[test]
fn step_after_failure_counts_down() {
    let request = Request::new("/user", 2);
    assert_eq!(request.start(), Step::Get);
    let (request, step) = request.next(Attempt::Failed);
    assert_eq!(step, Step::Get);
    assert_eq!(request.remaining, 1);
    let (request, step) = request.next(Attempt::Failed);
    assert_eq!(step, Step::Done(Err(Error::RetryLimit)));
    assert_eq!(request.remaining, 0);
    let (request, step) = request.next(Attempt::Failed);
    assert_eq!(step, Step::Done(Err(Error::RetryLimit)));
    assert_eq!(request.remaining, 0);
}

use eureka_client::executor::{AttemptOutcome, ExecutorStep, HttpResponse, RequestExecutor};
use eureka_client::resolver::Endpoint;
use eureka_client::rest::EurekaRestClient;
use eureka_client::EurekaError;

fn run_failing(max_retries: usize) -> (usize, ExecutorStep) {
    let ex = RequestExecutor::new(max_retries, 500);
    let req = EurekaRestClient::new().get_all_instances();
    let mut attempt = 0;
    let mut made = 0;
    loop {
        made += 1;
        let step = ex.next_step(&req, attempt, AttemptOutcome::NetworkFailure(format!("refused {}", attempt)));
        match step {
            ExecutorStep::Retry { attempt: next, delay } => {
                assert_eq!(next, attempt + 1);
                assert_eq!(delay, 500);
                attempt = next;
            }
            done => return (made, done),
        }
    }
}

#[test]
fn three_retries_make_four_attempts() {
    let (made, last) = run_failing(3);
    assert_eq!(made, 4);
    assert!(matches!(last, ExecutorStep::Done(Err(EurekaError::Network(ref m))) if m == "refused 3"));
}

#[test]
fn no_retries_make_one_attempt() {
    let (made, last) = run_failing(0);
    assert_eq!(made, 1);
    assert!(matches!(last, ExecutorStep::Done(Err(EurekaError::Network(_)))));
}

#[test]
fn expected_status_ends_request() {
    let ex = RequestExecutor::new(3, 500);
    let req = EurekaRestClient::new().register("orders", "{}".to_string());
    let ok = ex.next_step(&req, 0, AttemptOutcome::Response(HttpResponse { status: 204, body: String::new() }));
    assert!(matches!(ok, ExecutorStep::Done(Ok(ref r)) if r.status == 204));
    let other = ex.next_step(&req, 3, AttemptOutcome::Response(HttpResponse { status: 200, body: String::new() }));
    assert!(matches!(other, ExecutorStep::Done(Err(EurekaError::Request(200)))));
    let none = ex.next_step(&req, 3, AttemptOutcome::NoEndpoint);
    assert!(matches!(none, ExecutorStep::Done(Err(EurekaError::Network(ref m))) if m == "no registry endpoint"));
}

#[test]
fn target_is_first_endpoint() {
    let ex = RequestExecutor::new(3, 500);
    let req = EurekaRestClient::new().get_all_instances();
    let endpoints = vec![
        Endpoint { url: "http://s1:8761/eureka".to_string(), zone: String::new() },
        Endpoint { url: "http://s2:8761/eureka".to_string(), zone: String::new() },
    ];
    assert_eq!(ex.target_url(&req, &endpoints).unwrap(), "http://s1:8761/eureka/apps");
    assert!(ex.target_url(&req, &vec![]).is_none());
}

use apollo_router::layers::allow_only_http_post_mutations::{
    checkpoint, AllowOnlyHttpPostMutationsLayer, METHOD_NOT_ALLOWED,
};
use apollo_router::layers::map_future_with_context::{
    MapFutureWithContextLayer, MapFutureWithContextService,
};
use apollo_router::query_plan::{
    any_node_contains_mutations, FetchNode, OperationKind, PlanNode, QueryPlan,
};
use apollo_router::services::{
    Context, Error, ExecutionRequest, ExecutionResponse, Header, HttpRequest, Method, Object,
    Response,
};
use std::ops::ControlFlow;

fn fetch(operation_kind: OperationKind) -> PlanNode {
    PlanNode::Fetch(FetchNode {
        service_name: "product".to_string(),
        operation: "{__typename}".to_string(),
        operation_kind,
    })
}

fn create_request(method: Method, operation_kind: OperationKind) -> ExecutionRequest {
    let root = PlanNode::Sequence { nodes: vec![fetch(operation_kind)] };
    ExecutionRequest {
        originating_request: HttpRequest {
            method,
            uri: "http://default".to_string(),
            headers: vec![],
            body: "{}".to_string(),
        },
        query_plan: QueryPlan { root },
        context: Context { entries: vec![("trace".to_string(), "1".to_string())] },
    }
}

fn fake_response(req: ExecutionRequest) -> ExecutionResponse {
    ExecutionResponse {
        status: 200,
        headers: vec![],
        body: Response { data: Some("{}".to_string()), errors: vec![], extensions: Object::empty() },
        context: req.context,
    }
}

/// Sends `req` through the guarded service and says how often the inner
/// service was called.
fn call_counting(req: ExecutionRequest) -> (ExecutionResponse, u32) {
    let mut service_stack = AllowOnlyHttpPostMutationsLayer::default().layer(0u32);
    let response = service_stack.call(
        req,
        |calls: &mut u32, req: ExecutionRequest| {
            *calls += 1;
            fake_response(req)
        },
        |res: ExecutionResponse| res,
    );
    let calls = *service_stack_calls(&mut service_stack);
    (response, calls)
}

fn service_stack_calls(
    service: &mut apollo_router::layers::allow_only_http_post_mutations::AllowOnlyHttpPostMutationsService<u32>,
) -> &mut u32 {
    service.inner_mut()
}

#[test]
fn it_lets_http_post_queries_pass_through() {
    let http_post_query_plan_request = create_request(Method::Post, OperationKind::Query);
    let (response, calls) = call_counting(http_post_query_plan_request);
    assert_eq!(calls, 1);
    assert_eq!(response.status, 200);
}

#[test]
fn it_lets_http_post_mutations_pass_through() {
    let http_post_query_plan_request = create_request(Method::Post, OperationKind::Mutation);
    let (response, calls) = call_counting(http_post_query_plan_request);
    assert_eq!(calls, 1);
    assert_eq!(response.status, 200);
}

#[test]
fn it_lets_http_get_queries_pass_through() {
    let http_post_query_plan_request = create_request(Method::Get, OperationKind::Query);
    let (response, calls) = call_counting(http_post_query_plan_request);
    assert_eq!(calls, 1);
    assert_eq!(response.status, 200);
}

#[test]
fn it_doesnt_let_non_http_post_mutations_pass_through() {
    let expected_error = Error {
        message: "Mutations can only be sent over HTTP POST".to_string(),
        locations: Default::default(),
        path: Default::default(),
        extensions: Object::empty(),
    };
    let expected_status = 405;
    let expected_allow_header = "POST";

    let forbidden_requests = [
        Method::Get,
        Method::Head,
        Method::Options,
        Method::Put,
        Method::Delete,
        Method::Trace,
        Method::Connect,
        Method::Patch,
    ]
    .into_iter()
    .map(|method| create_request(method, OperationKind::Mutation));

    for request in forbidden_requests {
        let (actual_error, calls) = call_counting(request);
        assert_eq!(calls, 0);

        assert_eq!(expected_status, actual_error.status);
        let allow = actual_error.headers.iter().find(|header| header.name == "Allow").unwrap();
        assert_eq!(expected_allow_header, allow.value);
        assert_eq!(&actual_error.body.errors[0], &expected_error);
    }
}

#[test]
fn refusal_is_exactly_the_canonical_response() {
    let request = create_request(Method::Extension, OperationKind::Mutation);
    let flow = checkpoint(request);
    assert_eq!(METHOD_NOT_ALLOWED, 405);
    assert_eq!(
        flow,
        ControlFlow::Break(ExecutionResponse {
            status: 405,
            headers: vec![Header { name: "Allow".to_string(), value: "POST".to_string() }],
            body: Response {
                data: None,
                errors: vec![Error {
                    message: "Mutations can only be sent over HTTP POST".to_string(),
                    locations: vec![],
                    path: None,
                    extensions: Object { entries: vec![] },
                }],
                extensions: Object { entries: vec![] },
            },
            context: Context { entries: vec![("trace".to_string(), "1".to_string())] },
        })
    );
}

#[test]
fn passing_requests_are_unchanged() {
    for (method, kind) in [
        (Method::Post, OperationKind::Mutation),
        (Method::Post, OperationKind::Query),
        (Method::Get, OperationKind::Query),
        (Method::Delete, OperationKind::Subscription),
        (Method::Extension, OperationKind::Query),
    ] {
        assert_eq!(
            checkpoint(create_request(method, kind)),
            ControlFlow::Continue(create_request(method, kind))
        );
    }
}

#[test]
fn mutations_are_found_anywhere_in_the_plan() {
    let deep = PlanNode::Sequence {
        nodes: vec![
            fetch(OperationKind::Query),
            PlanNode::Parallel {
                nodes: vec![
                    fetch(OperationKind::Subscription),
                    PlanNode::Sequence { nodes: vec![fetch(OperationKind::Mutation)] },
                ],
            },
        ],
    };
    assert!(deep.contains_mutations());
    assert!(QueryPlan { root: deep }.contains_mutations());

    let none = PlanNode::Parallel {
        nodes: vec![
            fetch(OperationKind::Query),
            PlanNode::Sequence { nodes: vec![] },
            PlanNode::Sequence { nodes: vec![fetch(OperationKind::Subscription)] },
        ],
    };
    assert!(!none.contains_mutations());
    assert!(!QueryPlan { root: none }.contains_mutations());

    assert!(fetch(OperationKind::Mutation).contains_mutations());
    assert!(!fetch(OperationKind::Query).contains_mutations());
    assert!(!PlanNode::Sequence { nodes: vec![] }.contains_mutations());
    assert!(!any_node_contains_mutations(&vec![]));
    assert!(any_node_contains_mutations(&vec![
        fetch(OperationKind::Query),
        fetch(OperationKind::Mutation)
    ]));
}

struct Request {
    headers: Vec<(String, String)>,
}

#[derive(Debug, PartialEq)]
struct Reply {
    headers: Vec<(String, String)>,
}

#[test]
fn test_layer() {
    let layer = MapFutureWithContextLayer::new(
        |req: &Request| {
            req.headers.iter().find(|(name, _)| name == "hello").map(|(_, value)| value.clone()).unwrap()
        },
        |ctx: String, resp: Result<Reply, String>| {
            let mut resp = resp;
            if let Ok(resp) = &mut resp {
                resp.headers.push(("hello".to_string(), ctx));
            }
            resp
        },
    );
    let mut service = layer.layer(0u32);

    let result = service
        .call(
            Request { headers: vec![("hello".to_string(), "world".to_string())] },
            |calls: &mut u32, _req: Request| {
                *calls += 1;
                Ok(Reply { headers: vec![] })
            },
        )
        .unwrap();
    assert_eq!(
        result.headers.iter().find(|(name, _)| name == "hello").map(|(_, value)| value.as_str()),
        Some("world")
    );
    assert_eq!(*service.inner_mut(), 1);
}

#[test]
fn context_is_read_before_the_request_is_handed_on() {
    let mut service = MapFutureWithContextService::new(
        Vec::<String>::new(),
        |req: &String| req.len(),
        |ctx: usize, fut: String| format!("{}:{}", ctx, fut),
    );
    let out = service.call("abc".to_string(), |log: &mut Vec<String>, req: String| {
        log.push(req.clone());
        req.to_uppercase()
    });
    assert_eq!(out, "3:ABC");
    let out = service.call("hello".to_string(), |log: &mut Vec<String>, req: String| {
        log.push(req.clone());
        req.to_uppercase()
    });
    assert_eq!(out, "5:HELLO");
    assert_eq!(*service.inner_mut(), vec!["abc".to_string(), "hello".to_string()]);
}

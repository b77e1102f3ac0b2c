use bark_relay::client::BarkPostBody;
use bark_relay::config::Config;
use bark_relay::fanout::{
    first_failure, plan_deliveries, response_status, DeliveryOutcome, STATUS_INTERNAL_SERVER_ERROR,
    STATUS_OK,
};
use bark_relay::server::{UptraceAlert, UptraceWebhook};

fn body() -> BarkPostBody {
    BarkPostBody {
        title: Some("t".to_string()),
        body: None,
        level: None,
        badge: Some(1),
        auto_copy: None,
        copy: None,
        sound: None,
        icon: None,
    }
}

fn scenario_webhook() -> UptraceWebhook {
    UptraceWebhook {
        id: None,
        event_name: Some("created".to_string()),
        payload: serde_json::Value::Null,
        created_at: None,
        alert: UptraceAlert {
            id: None,
            url: Some("https://x/1".to_string()),
            name: Some("CPU high".to_string()),
            alert_type: Some("metric".to_string()),
            state: None,
            created_at: Some("2024-01-01T00:00:00Z".to_string()),
        },
    }
}

#[test]
fn no_destinations_means_no_deliveries_and_success() {
    let plan = plan_deliveries(&body(), &Vec::new());
    assert!(plan.is_empty());
    assert_eq!(response_status(&Vec::new()), STATUS_OK);
    assert_eq!(first_failure(&Vec::new()), None);
}

#[test]
fn one_delivery_per_destination_with_its_own_copy() {
    let urls = vec!["http://a/".to_string(), "http://b/".to_string(), "http://a/".to_string()];
    let plan = plan_deliveries(&body(), &urls);
    assert_eq!(plan.len(), 3);
    for (d, u) in plan.iter().zip(urls.iter()) {
        assert_eq!(&d.url, u);
        assert_eq!(d.body.encode(), body().encode());
    }
}

#[test]
fn all_delivered_gives_ok() {
    let outcomes = vec![DeliveryOutcome::Delivered, DeliveryOutcome::Delivered, DeliveryOutcome::Delivered];
    assert_eq!(response_status(&outcomes), STATUS_OK);
    assert_eq!(response_status(&outcomes), 200);
}

#[test]
fn any_failure_gives_server_error() {
    for n in 1..5usize {
        for bad in 0..n {
            let outcomes: Vec<DeliveryOutcome> = (0..n)
                .map(|i| {
                    if i == bad {
                        DeliveryOutcome::SendFailed("connection refused".to_string())
                    } else {
                        DeliveryOutcome::Delivered
                    }
                })
                .collect();
            assert_eq!(response_status(&outcomes), STATUS_INTERNAL_SERVER_ERROR);
            assert_eq!(first_failure(&outcomes), Some(bad));
        }
    }
}

#[test]
fn task_failure_gives_server_error() {
    let outcomes = vec![DeliveryOutcome::TaskFailed("panicked".to_string()), DeliveryOutcome::Delivered];
    assert_eq!(response_status(&outcomes), 500);
}

#[test]
fn first_of_several_failures_is_reported() {
    let outcomes = vec![
        DeliveryOutcome::Delivered,
        DeliveryOutcome::TaskFailed("x".to_string()),
        DeliveryOutcome::SendFailed("y".to_string()),
    ];
    assert_eq!(first_failure(&outcomes), Some(1));
}

#[test]
fn scenario_two_destinations_both_succeed() {
    let config = Config {
        port: "8080".to_string(),
        bark_notify_urls: vec!["http://one/".to_string(), "http://two/".to_string()],
    };
    let b = scenario_webhook().to_bark_post_body();
    let plan = plan_deliveries(&b, &config.bark_notify_urls);
    assert_eq!(plan.len(), 2);
    for d in plan.iter() {
        assert_eq!(d.body.body.as_deref(), Some("CPU high\n2024-01-01T00:00:00Z"));
        let v: serde_json::Value = serde_json::from_str(&d.body.encode()).unwrap();
        assert_eq!(v["body"].as_str(), Some("CPU high\n2024-01-01T00:00:00Z"));
    }
    let outcomes = vec![DeliveryOutcome::Delivered, DeliveryOutcome::Delivered];
    assert_eq!(response_status(&outcomes), 200);
}

#[test]
fn scenario_one_destination_unreachable() {
    let b = scenario_webhook().to_bark_post_body();
    let urls = vec!["http://one/".to_string(), "http://127.0.0.1:1/".to_string()];
    assert_eq!(plan_deliveries(&b, &urls).len(), 2);
    let outcomes = vec![
        DeliveryOutcome::Delivered,
        DeliveryOutcome::SendFailed("error sending request".to_string()),
    ];
    assert_eq!(response_status(&outcomes), 500);
}

#[test]
fn listen_address_binds_every_interface() {
    let config = Config { port: "3000".to_string(), bark_notify_urls: Vec::new() };
    assert_eq!(config.listen_address(), "0.0.0.0:3000");
}

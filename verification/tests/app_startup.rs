//! App registration, startup atomicity and run-outcome aggregation.

use kanin::app::aggregate_outcomes;
use kanin::error::BrokerError;
use kanin::{App, Error, HandlerConfig};

/// A fake broker client: counts connection attempts.
struct FakeBroker {
    connections: u32,
}

#[test]
fn empty_registration_list_fails_without_touching_the_broker() {
    let mut broker = FakeBroker { connections: 0 };
    let app: App<u32> = App::new(0);
    match app.setup_handlers() {
        Err(e) => assert_eq!(e, Error::NoHandlers),
        Ok(_) => {
            // Only a successful setup connects.
            broker.connections += 1;
            panic!("an app with no handlers must refuse to start");
        }
    }
    assert_eq!(broker.connections, 0);
}

#[test]
fn each_registration_yields_one_queue_setup() {
    let app: App<u32> = App::new(7)
        .handler("first_key".to_string())
        .handler_with_config(
            "second_key".to_string(),
            HandlerConfig::new()
                .with_queue("custom_queue".to_string())
                .with_prefetch(8)
                .with_replies(false),
        );
    let plans = app.setup_handlers().expect("handlers are registered");
    assert_eq!(plans.len(), 2);

    // The first uses the defaults: the queue is named by the routing key.
    assert_eq!(plans[0].queue_name, "first_key");
    assert_eq!(plans[0].routing_key, "first_key");
    assert_eq!(plans[0].consumer_tag, "first_key");
    assert_eq!(plans[0].prefetch, 64);
    assert_eq!(plans[0].gauge_increment, 64);
    assert_eq!(plans[0].exchange, "amq.direct");
    assert!(plans[0].options.auto_delete);
    assert!(!plans[0].options.durable);
    assert!(plans[0].should_reply);

    // The second uses its configuration.
    assert_eq!(plans[1].queue_name, "custom_queue");
    assert_eq!(plans[1].routing_key, "second_key");
    assert_eq!(plans[1].prefetch, 8);
    assert_eq!(plans[1].gauge_increment, 8);
    assert!(!plans[1].should_reply);
}

#[test]
fn it_compiles() {
    // Registration alone does nothing but record the handlers.
    let app: App<u32> = App::new(187)
        .handler("routing_key_0".to_string())
        .handler("routing_key_1".to_string())
        .handler("routing_key_3".to_string())
        .handler("routing_key_4".to_string())
        .handler("routing_key_5".to_string());
    assert_eq!(app.handlers.len(), 5);
    assert_eq!(app.state, 187);
}

#[test]
fn all_graceful_tasks_mean_a_successful_run() {
    let (result, broadcasts) = aggregate_outcomes(vec![Ok(()), Ok(()), Ok(())]);
    assert_eq!(result, Ok(()));
    assert_eq!(broadcasts, 0);
}

#[test]
fn a_cancelled_consumer_fails_the_run_and_broadcasts_shutdown() {
    let (result, broadcasts) = aggregate_outcomes(vec![
        Ok(()),
        Err(Error::ConsumerCancelled("first_key".to_string())),
        Ok(()),
        Err(Error::ConsumerCancelled("second_key".to_string())),
    ]);
    // The error of the latest-completing failed task is the run's result.
    assert_eq!(result, Err(Error::ConsumerCancelled("second_key".to_string())));
    // Each failed task asks for one shutdown broadcast to its siblings.
    assert_eq!(broadcasts, 2);
}

#[test]
fn a_broker_error_variant_carries_its_rendered_description() {
    let e = Error::Lapin(BrokerError { message: "connection reset".to_string() });
    let (result, broadcasts) = aggregate_outcomes(vec![Err(e.clone())]);
    assert_eq!(result, Err(e));
    assert_eq!(broadcasts, 1);
}

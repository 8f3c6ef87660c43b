use app_bootstrap::context::Config;
use app_bootstrap::environment::Environment;
use app_bootstrap::error::BootError;
use app_bootstrap::lifecycle::{Action, BootPolicy, Event, Phase, StartMode, Target};
use app_bootstrap::orchestrator::{BootOrchestrator, BootResult};
use app_bootstrap::serve::ServeParams;
use axum::routing::get;
use axum::Router;
use tokio::net::TcpListener;

type Boot = BootOrchestrator<Router, String>;

fn block_on<F: std::future::Future>(future: F) -> F::Output {
    tokio::runtime::Builder::new_current_thread().enable_all().build().unwrap().block_on(future)
}

/// Boots an application without extensions on `params` and binds for real.
/// The journal counts the augmentation callbacks and the binds.
async fn boot_on(params: ServeParams, journal: &mut Vec<&'static str>) -> (Boot, Option<TcpListener>) {
    let mut listener = None;
    let (mut boot, mut action) =
        Boot::new(StartMode::Serve, Environment::Test, BootPolicy::default()).step(Event::Start);
    loop {
        let event = match action {
            Action::LoadConfig => Event::Config(Config { server: params.clone() }),
            Action::InitLogger => Event::Logger(true),
            Action::Storage | Action::Mailer => Event::Provided(None),
            Action::ListExtensions => Event::Extensions(Vec::new()),
            Action::BeforeRun(Target::Customization) => Event::Done,
            Action::AssembleRoutes => {
                Event::Surface(Router::new().route("/widgets", get(|| async { "widgets" })))
            }
            Action::AfterRoutes(Target::Customization, router) => {
                journal.push("after_routes");
                Event::Surface(router)
            }
            Action::Bind => {
                journal.push("bind");
                let address = boot.config().unwrap().server.address();
                match TcpListener::bind(&address).await {
                    Ok(bound) => {
                        listener = Some(bound);
                        Event::Done
                    }
                    Err(cause) => Event::Failed(cause.kind().to_string()),
                }
            }
            Action::Halt => break,
            other => panic!("unexpected step: {:?}", other),
        };
        let (next, asked) = boot.step(event);
        boot = next;
        action = asked;
    }
    (boot, listener)
}

#[test]
fn boot_binds_a_free_address() {
    let mut journal = Vec::new();
    let params = ServeParams { port: 0, binding: "127.0.0.1".to_string() };
    let (boot, listener) = block_on(boot_on(params, &mut journal));
    assert_eq!(boot.phase(), Phase::Ready);
    assert!(listener.is_some());
    assert_eq!(journal, vec!["after_routes", "bind"]);
    assert!(matches!(boot.into_result(), Some(Ok(BootResult::Serve { .. }))));
}

#[test]
fn boot_fails_on_an_address_in_use() {
    let mut journal = Vec::new();
    let (boot, listener) = block_on(async {
        let taken = TcpListener::bind("127.0.0.1:0").await.unwrap();
        let port = taken.local_addr().unwrap().port();
        let params = ServeParams { port, binding: "127.0.0.1".to_string() };
        let outcome = boot_on(params, &mut journal).await;
        drop(taken);
        outcome
    });
    assert_eq!(boot.phase(), Phase::Aborted);
    assert!(listener.is_none());
    assert_eq!(journal, vec!["after_routes", "bind"]);
    assert_eq!(boot.error(), Some(&BootError::BindError("address in use".to_string())));
}

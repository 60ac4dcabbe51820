use esp_voice::multinet::{
    check_c_method, MultiNetSetup, SetupAction, SetupEvent, SetupStage, COMMAND_PHRASE,
};

fn made(is_null: bool) -> SetupEvent {
    SetupEvent::Made { is_null }
}

fn lookup(table_is_null: bool, has_method: bool) -> SetupEvent {
    SetupEvent::Lookup { table_is_null, has_method }
}

fn err(s: &str) -> SetupAction {
    SetupAction::LogError(s.to_string())
}

fn fail(s: &str) -> SetupAction {
    SetupAction::Fail(s.to_string())
}

fn frees(all: &[SetupAction]) -> usize {
    all.iter().filter(|a| **a == SetupAction::FreeConfig).count()
}

fn run(events: &[SetupEvent]) -> (MultiNetSetup, Vec<SetupAction>) {
    let (mut s, mut all) = MultiNetSetup::start();
    for e in events {
        all.extend(s.on_event(*e));
    }
    (s, all)
}

#[test]
fn c_method_checks() {
    assert_eq!(check_c_method(false, true, "create"), Ok(()));
    assert_eq!(
        check_c_method(true, true, "create"),
        Err("Null pointer provided to create".to_string())
    );
    assert_eq!(
        check_c_method(false, false, "create_from_config"),
        Err("Failed to call method create_from_config".to_string())
    );
}

#[test]
fn successful_setup() {
    let (s, all) = run(&[
        made(false),
        made(false),
        made(false),
        lookup(false, true),
        made(false),
        made(false),
        lookup(false, true),
    ]);
    assert_eq!(s.stage(), SetupStage::Ready);
    assert_eq!(
        all,
        vec![
            SetupAction::LoadModels,
            SetupAction::InitConfig,
            SetupAction::PrintConfig,
            SetupAction::CreateHandle,
            SetupAction::LookupCreateData,
            SetupAction::CreateData,
            SetupAction::FreeConfig,
            SetupAction::FilterModel,
            SetupAction::GetMultinet,
            SetupAction::LookupCreateModel,
            SetupAction::CreateModel,
            SetupAction::ClearCommands,
            SetupAction::AddCommand(1, COMMAND_PHRASE.to_string()),
            SetupAction::UpdateCommands,
            SetupAction::Succeed,
        ]
    );
    assert_eq!(COMMAND_PHRASE, "wo you ge wen ti");
}

#[test]
fn models_missing() {
    let (s, all) = run(&[made(true)]);
    assert_eq!(s.stage(), SetupStage::Failed);
    let m = "Failed to initialize speech recognition models";
    assert_eq!(all, vec![SetupAction::LoadModels, err(m), fail(m)]);
    assert_eq!(frees(&all), 0);
}

#[test]
fn config_missing() {
    let (_, all) = run(&[made(false), made(true)]);
    let m = "Failed to initialize AFE configuration";
    assert_eq!(&all[2..], &[err(m), fail(m)]);
    assert_eq!(frees(&all), 0);
}

#[test]
fn handle_missing_frees_config() {
    let (_, all) = run(&[made(false), made(false), made(true)]);
    assert_eq!(
        &all[4..],
        &[
            err("Failed to create AFE handle from config"),
            SetupAction::FreeConfig,
            fail("Failed to create AFE handle"),
        ]
    );
    assert_eq!(frees(&all), 1);
}

#[test]
fn data_method_missing_frees_config() {
    let (_, all) = run(&[made(false), made(false), made(false), lookup(false, false)]);
    assert_eq!(
        &all[5..],
        &[
            err("Failed to create AFE data: Failed to call method create_from_config"),
            SetupAction::FreeConfig,
            fail("Failed to call method create_from_config"),
        ]
    );
    assert_eq!(frees(&all), 1);
    let (_, all) = run(&[made(false), made(false), made(false), lookup(true, true)]);
    assert_eq!(all.last(), Some(&fail("Null pointer provided to create_from_config")));
}

#[test]
fn later_failures_do_not_free_again() {
    let base = [made(false), made(false), made(false), lookup(false, true)];
    let (s, all) = run(&[&base[..], &[made(true)]].concat());
    let m = "Failed to filter speech recognition model";
    assert_eq!(&all[all.len() - 2..], &[err(m), fail(m)]);
    assert_eq!(frees(&all), 1);
    assert_eq!(s.stage(), SetupStage::Failed);

    let (_, all) = run(&[&base[..], &[made(false), made(true)]].concat());
    let m = "Failed to get multinet handle";
    assert_eq!(&all[all.len() - 2..], &[err(m), fail(m)]);
    assert_eq!(frees(&all), 1);

    let (_, all) = run(&[&base[..], &[made(false), made(false), lookup(false, false)]].concat());
    let m = "Failed to create model data: Failed to call method create";
    assert_eq!(&all[all.len() - 2..], &[err(m), fail(m)]);
    assert_eq!(frees(&all), 1);
}

#[test]
fn reports_after_the_end_and_of_the_wrong_kind_are_ignored() {
    let (mut s, _) = run(&[made(true)]);
    assert_eq!(s.on_event(made(false)), vec![]);
    assert_eq!(s.stage(), SetupStage::Failed);
    let (mut t, _) = MultiNetSetup::start();
    assert_eq!(t.on_event(lookup(false, true)), vec![]);
    assert_eq!(t.stage(), SetupStage::LoadModels);
}

fn uses_config(a: &SetupAction) -> bool {
    matches!(
        a,
        SetupAction::PrintConfig
            | SetupAction::CreateHandle
            | SetupAction::CreateData
            | SetupAction::FreeConfig
    )
}

#[test]
fn config_never_used_after_free() {
    let runs: Vec<Vec<SetupEvent>> = vec![
        vec![made(false), made(false), made(true)],
        vec![made(false), made(false), made(false), lookup(false, false)],
        vec![made(false), made(false), made(false), lookup(false, true), made(true)],
        vec![
            made(false),
            made(false),
            made(false),
            lookup(false, true),
            made(false),
            made(false),
            lookup(false, true),
        ],
    ];
    for events in runs {
        let (_, all) = run(&events);
        let freed_at = all.iter().position(|a| *a == SetupAction::FreeConfig).unwrap();
        assert!(all[freed_at + 1..].iter().all(|a| !uses_config(a)));
        assert_eq!(frees(&all), 1);
    }
}

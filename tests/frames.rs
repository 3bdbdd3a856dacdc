use vapo::{CellStore, GUIData, OutOfContext, Ref, ScriptValue, Vapo};

fn with_ui(f: impl FnMut(&mut egui::Ui)) {
    let mut f = f;
    let ctx = egui::Context::default();
    let _ = ctx.run(egui::RawInput::default(), |ctx| {
        egui::CentralPanel::default().show(ctx, |ui| f(ui));
    });
}

#[test]
fn context_lives_only_in_its_frame() {
    let mut vapo = Vapo::new();
    let ctx: GUIData = vapo.begin_frame().unwrap();
    assert_eq!(ctx.ui(&vapo), Ok(()));
    vapo.end_frame(None);
    assert_eq!(ctx.ui(&vapo), Err(OutOfContext));
    let next = vapo.begin_frame().unwrap();
    for _ in 0..5 {
        assert_eq!(ctx.ui(&vapo), Err(OutOfContext));
    }
    assert_eq!(next.ui(&vapo), Ok(()));
    assert_eq!(vapo.frames_issued(), 2);
}

#[test]
fn invalidating_twice_is_harmless() {
    let mut vapo = Vapo::new();
    let ctx = vapo.begin_frame().unwrap();
    vapo.invalidate();
    vapo.invalidate();
    vapo.end_frame(None);
    assert_eq!(ctx.ui(&vapo), Err(OutOfContext));
    assert_eq!(vapo.error(), None);
    assert!(vapo.begin_frame().is_some());
}

#[test]
fn failed_draw_keeps_fallback() {
    let mut vapo = Vapo::new();
    let ctx = vapo.begin_frame().unwrap();
    vapo.end_frame(Some(String::from("boom")));
    assert_eq!(ctx.ui(&vapo), Err(OutOfContext));
    assert_eq!(vapo.error(), Some(String::from("boom")));
    for _ in 0..4 {
        assert!(vapo.begin_frame().is_none());
        vapo.end_frame(Some(String::from("later")));
        assert_eq!(vapo.error(), Some(String::from("boom")));
    }
    assert!(!vapo.should_close());
    vapo.request_quit();
    assert!(vapo.should_close());
}

#[test]
fn fallback_renders_without_quitting() {
    let mut vapo = Vapo::new();
    vapo.begin_frame().unwrap();
    vapo.end_frame(Some(String::from("bad script")));
    assert!(vapo.begin_frame().is_none());
    let mut shown = None;
    with_ui(|ui| shown = Some(vapo.render_fallback(ui)));
    let shown = shown.unwrap();
    assert!(!shown.quit);
    assert_eq!(shown.banner, "An Error has Occoured!");
    assert_eq!(shown.message, "bad script");
    assert_eq!(shown.control, "Quit");
    assert!(!vapo.should_close());
    assert_eq!(vapo.error(), Some(String::from("bad script")));
}

#[test]
fn live_context_draws_widgets() {
    let mut vapo = Vapo::new();
    let ctx = vapo.begin_frame().unwrap();
    let mut store: CellStore<String> = CellStore::new();
    let cell = Ref::new(&mut store, String::from("abc"));
    let mut shown = Vec::new();
    let mut pressed = None;
    let mut change = None;
    with_ui(|ui| {
        shown.push(ctx.label(&vapo, ui, &ScriptValue::Text(String::from("hello"))));
        shown.push(ctx.label(&vapo, ui, &ScriptValue::Nil));
        shown.push(ctx.label(&vapo, ui, &ScriptValue::Number(String::from("12"))));
        pressed = Some(ctx.button(&vapo, ui, &ScriptValue::Text(String::from("press"))));
        change = Some(ctx.input(&vapo, ui, &mut store, &cell));
    });
    assert_eq!(shown, vec!["hello", "[Unknown]", "12"]);
    assert_eq!(pressed, Some((false, String::from("press"))));
    assert_eq!(change, Some(Ok(None)));
    match cell.get(&store).unwrap() {
        ScriptValue::Text(t) => assert_eq!(t, "abc"),
        _ => panic!("not a text value"),
    }
    vapo.end_frame(None);
}

#[test]
fn input_refused_while_cell_borrowed() {
    let mut vapo = Vapo::new();
    let ctx = vapo.begin_frame().unwrap();
    let mut store: CellStore<String> = CellStore::new();
    let cell = Ref::new(&mut store, String::from("abc"));
    cell.mut_(&mut store).unwrap();
    let mut result = None;
    with_ui(|ui| result = Some(ctx.input(&vapo, ui, &mut store, &cell)));
    assert_eq!(result, Some(Err(vapo::BorrowConflict)));
}

#[test]
fn button_without_text_shows_placeholder() {
    let mut vapo = Vapo::new();
    let ctx = vapo.begin_frame().unwrap();
    let mut pressed = None;
    with_ui(|ui| pressed = Some(ctx.button(&vapo, ui, &ScriptValue::Boolean(true))));
    assert_eq!(pressed, Some((false, String::from("[Unknown]"))));
}

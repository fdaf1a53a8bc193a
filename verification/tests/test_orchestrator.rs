use voiceforge::audio::AudioShape;
use voiceforge::debounce::{Debounce, EFFECTS_DEBOUNCE_MS, RESYNTH_DEBOUNCE_MS};
use voiceforge::mode::{AppMode, PanelFocus, Trigger};
use voiceforge::orchestrator::{Held, Orchestrator, Reaction};
use voiceforge::reconcile::{
    plan_synthesis_done, plan_toggle, reconcile_position, rescale_position, BufferUpdate,
};
use voiceforge::worker::ProcessingResult;

fn shape(sample_count: usize, channels: u16) -> AudioShape {
    AudioShape { sample_count, sample_rate: 44100, channels }
}

#[test]
fn test_channel_remap_stereo_to_mono() {
    assert_eq!(reconcile_position(200, 2, 1, 100_000), 100);
}

#[test]
fn test_channel_remap_other_cases() {
    assert_eq!(reconcile_position(100, 1, 2, 100_000), 200);
    assert_eq!(reconcile_position(201, 2, 1, 100_000), 100);
    assert_eq!(reconcile_position(200, 2, 1, 50), 50);
    assert_eq!(reconcile_position(200, 2, 2, 100_000), 200);
    assert_eq!(reconcile_position(200, 2, 2, 150), 150);
    assert_eq!(reconcile_position(200, 0, 2, 150), 150);
    assert_eq!(reconcile_position(200, 2, 0, 1000), 200);
    assert_eq!(reconcile_position(usize::MAX, 1, 65535, usize::MAX), usize::MAX);
}

#[test]
fn test_ab_rescale_halves_position() {
    assert_eq!(rescale_position(250, 1000, 500), 125);
}

#[test]
fn test_ab_rescale_other_cases() {
    assert_eq!(rescale_position(250, 1000, 1000), 250);
    assert_eq!(rescale_position(2500, 1000, 1000), 1000);
    assert_eq!(rescale_position(1000, 1000, 500), 500);
    assert_eq!(rescale_position(2000, 1000, 500), 500);
    assert_eq!(rescale_position(0, 1000, 500), 0);
    assert_eq!(rescale_position(7, 0, 500), 0);
    assert_eq!(rescale_position(1, 3, 2), 1);
    assert_eq!(rescale_position(1, 4, 2), 1);
    assert_eq!(rescale_position(1, 5, 2), 0);
    assert_eq!(rescale_position(125, 500, 1000), 250);
    assert_eq!(rescale_position(usize::MAX, usize::MAX, usize::MAX - 1), usize::MAX - 1);
}

#[test]
fn test_plan_synthesis_done() {
    assert_eq!(plan_synthesis_done(true, true, 200, 2, 1, 1000), BufferUpdate::StoreOnly);
    assert_eq!(
        plan_synthesis_done(false, true, 200, 2, 1, 1000),
        BufferUpdate::HotSwap { position: 100 }
    );
    assert_eq!(
        plan_synthesis_done(false, false, 200, 2, 1, 60),
        BufferUpdate::Rebuild { position: 60 }
    );
    assert_eq!(
        plan_synthesis_done(false, true, 900, 1, 1, 500),
        BufferUpdate::HotSwap { position: 500 }
    );
}

#[test]
fn test_plan_toggle() {
    assert_eq!(plan_toggle(true, 250, 1000, 500), Some(125));
    assert_eq!(plan_toggle(false, 250, 1000, 500), None);
    assert_eq!(plan_toggle(true, 250, 500, 500), Some(250));
}

#[test]
fn test_debounce_two_actions_fire_once() {
    let mut debounce = Debounce::new(150, 80);
    debounce.request(Trigger::Resynthesize, 1000);
    debounce.request(Trigger::Resynthesize, 1050);
    let mut fired: Vec<(u64, Trigger)> = Vec::new();
    let mut now: u64 = 1000;
    while now <= 1500 {
        if let Some(trigger) = debounce.poll(now) {
            fired.push((now, trigger));
        }
        now += 1;
    }
    assert_eq!(fired, vec![(1200, Trigger::Resynthesize)]);
}

#[test]
fn test_debounce_standard_windows() {
    let debounce = Debounce::standard();
    assert_eq!(debounce.resynth_window, 150);
    assert_eq!(debounce.effects_window, 80);
    assert_eq!(RESYNTH_DEBOUNCE_MS, 150);
    assert_eq!(EFFECTS_DEBOUNCE_MS, 80);
    assert_eq!(debounce.resynth_due, None);
    assert_eq!(debounce.effects_due, None);
}

#[test]
fn test_debounce_resynthesis_cancels_effects() {
    let mut debounce = Debounce::standard();
    debounce.request(Trigger::ReapplyEffects, 100);
    debounce.request(Trigger::Resynthesize, 100);
    assert_eq!(debounce.poll(179), None);
    assert_eq!(debounce.poll(180), Some(Trigger::ReapplyEffects));
    debounce.request(Trigger::ReapplyEffects, 200);
    assert_eq!(debounce.poll(250), Some(Trigger::Resynthesize));
    assert_eq!(debounce.effects_due, None);
    assert_eq!(debounce.poll(10_000), None);
}

#[test]
fn test_debounce_effects_only() {
    let mut debounce = Debounce::standard();
    debounce.request(Trigger::ReapplyEffects, 0);
    debounce.request(Trigger::LiveGain, 10);
    assert_eq!(debounce.effects_due, Some(80));
    assert_eq!(debounce.resynth_due, None);
    assert_eq!(debounce.poll(79), None);
    assert_eq!(debounce.poll(80), Some(Trigger::ReapplyEffects));
    assert_eq!(debounce.poll(81), None);
}

#[test]
fn test_debounce_cancel_and_saturation() {
    let mut debounce = Debounce::standard();
    debounce.request(Trigger::Resynthesize, u64::MAX - 10);
    assert_eq!(debounce.resynth_due, Some(u64::MAX));
    debounce.request(Trigger::ReapplyEffects, 5);
    debounce.cancel();
    assert_eq!(debounce.resynth_due, None);
    assert_eq!(debounce.effects_due, None);
    assert_eq!(debounce.poll(u64::MAX), None);
}

#[test]
fn test_panel_focus_cycle() {
    assert_eq!(PanelFocus::WorldSliders.next(), PanelFocus::EffectsSliders);
    assert_eq!(PanelFocus::EffectsSliders.next(), PanelFocus::Master);
    assert_eq!(PanelFocus::Master.next(), PanelFocus::EqBands);
    assert_eq!(PanelFocus::EqBands.next(), PanelFocus::Transport);
    assert_eq!(PanelFocus::Transport.next(), PanelFocus::WorldSliders);
    assert_ne!(AppMode::Normal, AppMode::Help);
}

#[test]
fn test_panel_slider_triggers() {
    assert_eq!(PanelFocus::WorldSliders.slider_trigger(), Some(Trigger::Resynthesize));
    assert_eq!(PanelFocus::EffectsSliders.slider_trigger(), Some(Trigger::ReapplyEffects));
    assert_eq!(PanelFocus::Master.slider_trigger(), Some(Trigger::LiveGain));
    assert_eq!(PanelFocus::EqBands.slider_trigger(), Some(Trigger::ReapplyEffects));
    assert_eq!(PanelFocus::Transport.slider_trigger(), None);
}

#[test]
fn test_orchestrator_analysis_triggers_resynthesis() {
    let mut o: Orchestrator<&'static str> = Orchestrator::new(Debounce::standard());
    o.file_loaded(Held { audio: "stereo", shape: shape(2000, 2) });
    let r = o.on_result(ProcessingResult::Status("Analyzing... 50%".to_string()), shape(0, 0), true, 0);
    assert_eq!(r, Reaction::Idle);
    assert_eq!(o.progress, Some("Analyzing... 50%".to_string()));
    let r = o.on_result(ProcessingResult::AnalysisDone("mono"), shape(1000, 1), true, 0);
    assert_eq!(r, Reaction::Resynthesize);
    assert_eq!(o.progress, None);
    assert_eq!(o.original, Some(Held { audio: "mono", shape: shape(1000, 1) }));
    assert_eq!(o.active, Some(shape(2000, 2)));
}

#[test]
fn test_orchestrator_hot_swaps_with_remapped_position() {
    let mut o: Orchestrator<&'static str> = Orchestrator::new(Debounce::standard());
    o.file_loaded(Held { audio: "stereo", shape: shape(2000, 2) });
    o.report("old notice".to_string());
    let r = o.on_result(ProcessingResult::SynthesisDone("voiced"), shape(1000, 1), true, 200);
    assert_eq!(r, Reaction::HotSwap { position: 100 });
    assert_eq!(o.active, Some(shape(1000, 1)));
    assert_eq!(o.notice, None);
    assert_eq!(o.heard(), Some(&Held { audio: "voiced", shape: shape(1000, 1) }));
}

#[test]
fn test_orchestrator_rebuilds_without_a_stream() {
    let mut o: Orchestrator<&'static str> = Orchestrator::new(Debounce::standard());
    o.file_loaded(Held { audio: "first", shape: shape(1000, 1) });
    let r = o.on_result(ProcessingResult::SynthesisDone("voiced"), shape(400, 1), false, 900);
    let held = Held { audio: "voiced", shape: shape(400, 1) };
    assert_eq!(r, Reaction::Rebuild { audio: held.clone(), position: 400 });
    assert_eq!(o.heard(), Some(&Held { audio: "first", shape: shape(1000, 1) }));
    o.report("Playback error: no device".to_string());
    assert_eq!(o.heard(), Some(&Held { audio: "first", shape: shape(1000, 1) }));
    o.adopt(held.clone());
    assert_eq!(o.heard(), Some(&held));
}

#[test]
fn test_orchestrator_stores_only_while_on_original() {
    let mut o: Orchestrator<&'static str> = Orchestrator::new(Debounce::standard());
    o.file_loaded(Held { audio: "first", shape: shape(1000, 1) });
    let _ = o.on_result(ProcessingResult::AnalysisDone("mono"), shape(1000, 1), true, 0);
    assert_eq!(o.toggle_ab(true, 250, 1000), Some(250));
    assert!(o.on_original);
    let r = o.on_result(ProcessingResult::SynthesisDone("voiced"), shape(500, 1), true, 250);
    assert_eq!(r, Reaction::Idle);
    assert_eq!(o.heard(), Some(&Held { audio: "mono", shape: shape(1000, 1) }));
    assert_eq!(o.toggle_ab(true, 250, 1000), Some(125));
    assert!(!o.on_original);
    assert_eq!(o.heard(), Some(&Held { audio: "voiced", shape: shape(500, 1) }));
    assert_eq!(o.active, Some(shape(500, 1)));
}

#[test]
fn test_orchestrator_toggle_needs_both_sides_and_a_stream() {
    let mut o: Orchestrator<&'static str> = Orchestrator::new(Debounce::standard());
    assert_eq!(o.toggle_ab(true, 0, 0), None);
    o.file_loaded(Held { audio: "first", shape: shape(1000, 1) });
    assert_eq!(o.toggle_ab(true, 10, 1000), None);
    let _ = o.on_result(ProcessingResult::AnalysisDone("mono"), shape(1000, 1), true, 0);
    assert_eq!(o.toggle_ab(false, 10, 1000), None);
    assert!(!o.on_original);
    assert_eq!(o.toggle_ab(true, 10, 1000), Some(10));
}

#[test]
fn test_orchestrator_forwards_picker_results() {
    let mut o: Orchestrator<&'static str> = Orchestrator::new(Debounce::standard());
    let listing = ProcessingResult::DirectoryListing("sr".to_string(), vec!["src/".to_string()]);
    let r = o.on_result(listing.clone(), shape(0, 0), false, 0);
    assert_eq!(r, Reaction::Forward(listing));
    let ready = ProcessingResult::AudioReady("audio", "a.wav".to_string());
    assert_eq!(o.on_result(ready.clone(), shape(10, 1), false, 0), Reaction::Forward(ready));
    let ok = ProcessingResult::AudioPrecheckDone("a.wav".to_string());
    assert_eq!(o.on_result(ok.clone(), shape(0, 0), false, 0), Reaction::Forward(ok));
    let bad = ProcessingResult::AudioPrecheckFailed("a.txt".to_string(), "no".to_string());
    assert_eq!(o.on_result(bad.clone(), shape(0, 0), false, 0), Reaction::Forward(bad));
}

#[test]
fn test_orchestrator_debounces_triggers() {
    let mut o: Orchestrator<&'static str> = Orchestrator::new(Debounce::standard());
    o.on_trigger(Trigger::Resynthesize, 0);
    o.on_trigger(Trigger::Resynthesize, 50);
    assert_eq!(o.tick(100), None);
    assert_eq!(o.tick(199), None);
    assert_eq!(o.tick(200), Some(Trigger::Resynthesize));
    assert_eq!(o.tick(233), None);
    o.on_trigger(Trigger::ReapplyEffects, 300);
    o.file_loaded(Held { audio: "next", shape: shape(10, 1) });
    assert_eq!(o.tick(1000), None);
}

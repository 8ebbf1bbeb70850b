use timewarp::{
    consolidate_rollback_requests, process_despawn_marker, DespawnMarker, InsertComponentAtFrame,
    InsertComponentResult, RollbackComponents, RollbackConsolidationStrategy, RollbackRequest,
    Timewarp, TimewarpConfig, FAST_FORWARD_TIMESTEP,
};

const TEST_ROLLBACK_WINDOW: u32 = 10;
const TIMESTEP: u64 = 100_000_000_000_000;

#[derive(Default, Debug, Clone, PartialEq)]
struct Enemy {
    health: i32,
}

#[derive(Default, Debug, Clone, PartialEq)]
struct Shield;

/// A host with one or two registered types, and game logic that takes 1 damage per frame
/// from every enemy without a shield.
struct App {
    tw: Timewarp,
    enemies: RollbackComponents<Enemy>,
    shields: RollbackComponents<Shield>,
    markers: Vec<Option<DespawnMarker>>,
    fresh_markers: Vec<bool>,
    alive: Vec<bool>,
}

impl App {
    fn new(correction_logging: bool) -> App {
        let config = TimewarpConfig::new().with_rollback_window(TEST_ROLLBACK_WINDOW);
        App {
            tw: Timewarp::new(config, TIMESTEP),
            enemies: RollbackComponents::new(correction_logging),
            shields: RollbackComponents::new(false),
            markers: Vec::new(),
            fresh_markers: Vec::new(),
            alive: Vec::new(),
        }
    }

    fn spawn(&mut self, health: i32) -> usize {
        let id = self.enemies.spawn(Enemy { health });
        let sid = self.shields.spawn(Shield);
        self.shields.set_live(sid, None);
        self.shields.entities[sid].added = false;
        self.shields.entities[sid].removed = false;
        assert_eq!(id, sid);
        self.markers.push(None);
        self.fresh_markers.push(false);
        self.alive.push(true);
        id
    }

    /// An entity that has no enemy value yet.
    fn spawn_empty(&mut self) -> usize {
        let id = self.spawn(0);
        self.enemies.set_live(id, None);
        self.enemies.entities[id].added = false;
        self.enemies.entities[id].removed = false;
        id
    }

    fn insert_at_frame(&mut self, id: usize, frame: u32, health: i32) -> InsertComponentResult {
        self.enemies
            .insert_component_at_frame(id, InsertComponentAtFrame::new(frame, Enemy { health }), &mut self.tw)
            .unwrap()
    }

    fn mark_despawn(&mut self, id: usize, marker: DespawnMarker) {
        self.markers[id] = Some(marker);
        self.fresh_markers[id] = true;
    }

    fn num_rollbacks(&self) -> u64 {
        self.tw.stats.num_rollbacks
    }

    fn health(&self, id: usize) -> Option<i32> {
        self.enemies.live(id).map(|e| e.health)
    }

    fn health_at(&self, id: usize, frame: u32) -> Option<i32> {
        self.enemies.value_at(id, frame).map(|e| e.health)
    }

    /// One simulated frame: prefix steps, game logic, postfix steps.
    fn frame(&mut self) {
        if self.tw.in_rollback() {
            let f = self.tw.frame();
            assert!(self.enemies.can_restore_all(f), "history lost a frame the rollback needs");
            assert!(self.shields.can_restore_all(f), "history lost a frame the rollback needs");
        }
        self.enemies.check_rollback_progress(&self.tw);
        self.shields.check_rollback_progress(&self.tw);
        self.tw.complete_rollback();
        self.enemies.apply_snapshots(&mut self.tw);
        self.shields.apply_snapshots(&mut self.tw);
        if self.tw.consolidate() {
            if let Some(f) = self.tw.start_rollback() {
                assert!(self.enemies.can_restore_all(f), "history lost a frame the rollback needs");
                assert!(self.shields.can_restore_all(f), "history lost a frame the rollback needs");
                self.enemies.restore_all(f);
                self.shields.restore_all(f);
            }
        }

        self.tw.advance_frame();
        for id in 0..self.enemies.entities.len() {
            if !self.alive[id] {
                continue;
            }
            let shielded = self.shields.live(id).is_some();
            if let Some(e) = self.enemies.live(id).cloned() {
                if !shielded {
                    self.enemies.set_live(id, Some(Enemy { health: e.health - 1 }));
                }
            }
        }

        let frame = self.tw.frame();
        self.enemies.record_all(&self.tw);
        self.shields.record_all(&self.tw);
        for id in 0..self.markers.len() {
            if self.fresh_markers[id] {
                self.fresh_markers[id] = false;
                self.enemies.despawn(id, frame);
                self.shields.despawn(id, frame);
            }
            if let Some(marker) = self.markers[id].as_mut() {
                if process_despawn_marker(marker, frame, TEST_ROLLBACK_WINDOW) {
                    self.alive[id] = false;
                }
            }
        }
    }

    /// One tick of the host: a frame, and every replayed frame of a rollback it starts.
    fn tick(&mut self) {
        loop {
            self.frame();
            if !self.tw.in_rollback() {
                break;
            }
        }
    }

    fn insert_snapshot(&mut self, id: usize, frame: u32, health: i32) {
        let r = self
            .enemies
            .insert_component_at_frame(id, InsertComponentAtFrame::new(frame, Enemy { health }), &mut self.tw);
        assert_eq!(r, Ok(InsertComponentResult::IntoExistingSnapshot));
    }
}

#[test]
fn basic_rollback() {
    let mut app = App::new(false);
    let e1 = app.spawn(10);
    let e2 = app.spawn(3);
    assert_eq!(app.num_rollbacks(), 0);

    app.tick(); // frame 1
    assert_eq!(app.health(e1), Some(9));
    assert_eq!(app.health(e2), Some(2));
    assert!(app.enemies.entities[e1].history.is_some());
    assert!(app.enemies.entities[e2].history.is_some());
    assert!(app.enemies.entities[e1].snapshot.is_some());
    assert!(app.enemies.entities[e2].snapshot.is_some());
    assert_eq!(app.health_at(e1, 1), Some(9));
    assert_eq!(app.health_at(e2, 1), Some(2));

    app.tick(); // frame 2
    app.tick(); // frame 3
    app.tick(); // frame 4
    assert_eq!(app.tw.frame(), 4);
    assert_eq!(app.health(e1), Some(6));
    assert_eq!(app.health(e2), Some(-1));
    assert_eq!(app.health_at(e1, 2), Some(8));
    assert_eq!(app.health_at(e1, 3), Some(7));
    assert_eq!(app.health_at(e1, 4), Some(6));
    assert_eq!(app.health_at(e2, 3), Some(0));
    assert_eq!(app.health_at(e2, 4), Some(-1));

    // during frame 5 the server says that at frame 2 E2 ate a powerup
    app.insert_snapshot(e2, 2, 100);
    app.tick(); // frame 5
    assert_eq!(app.num_rollbacks(), 1);
    assert_eq!(app.health_at(e2, 2), Some(100));
    assert_eq!(app.health_at(e2, 3), Some(99));
    assert_eq!(app.health_at(e1, 3), Some(7));
    assert_eq!(app.tw.frame(), 5);
    assert_eq!(app.health_at(e2, 5), Some(97));
    assert_eq!(app.health(e2), Some(97));

    app.tick(); // frame 6
    assert_eq!(app.num_rollbacks(), 1);
    assert_eq!(app.health_at(e2, 6), Some(96));

    app.tick(); // frame 7
    assert_eq!(app.health_at(e2, 7), Some(95));
    assert_eq!(app.health(e2), Some(95));

    // the server confirms the predicted value at frame 5
    app.insert_snapshot(e2, 5, 97);
    app.tick(); // frame 8, no rollback
    assert_eq!(app.num_rollbacks(), 1);
    assert_eq!(app.health_at(e2, 8), Some(94));
    assert_eq!(app.health_at(e2, 7), Some(95));
    assert_eq!(app.health(e2), Some(94));
    // the entity's status tracks the newest authoritative frame it received
    assert_eq!(app.enemies.entities[e2].status.unwrap().last_snap_frame(), 5);
    assert_eq!(app.enemies.entities[e1].status.unwrap().last_snap_frame(), 0);
}

#[test]
fn misprediction_history_after_rollback() {
    let mut app = App::new(false);
    let e = app.spawn(10);
    for _ in 0..4 {
        app.tick();
    }
    assert_eq!(app.health_at(e, 4), Some(6));
    app.insert_snapshot(e, 2, 100);
    app.tick();
    assert_eq!(app.health_at(e, 2), Some(100));
    assert_eq!(app.health_at(e, 3), Some(99));
    assert_eq!(app.health_at(e, 4), Some(98));
    assert_eq!(app.health_at(e, 5), Some(97));
    assert_eq!(app.num_rollbacks(), 1);
    let prev = app.tw.previous_rollback.as_ref().unwrap();
    assert_eq!(prev.0.range, 3..4);
    assert_eq!(prev.0.original_period, Some(TIMESTEP));
    assert_eq!(app.tw.timestep, TIMESTEP);
}

#[test]
fn confirmed_prediction_triggers_no_rollback() {
    let mut app = App::new(false);
    let e = app.spawn(10);
    for _ in 0..4 {
        app.tick();
    }
    app.insert_snapshot(e, 3, 7);
    app.tick();
    assert_eq!(app.num_rollbacks(), 0);
    assert!(app.tw.previous_rollback.is_none());
    assert_eq!(app.health_at(e, 5), Some(5));
}

#[test]
fn forced_rollback_on_confirmed_prediction() {
    let mut app = App::new(false);
    app.tw.config = app.tw.config.with_forced_rollback(true);
    let e = app.spawn(10);
    for _ in 0..4 {
        app.tick();
    }
    app.insert_snapshot(e, 3, 7);
    app.tick();
    assert_eq!(app.num_rollbacks(), 1);
    assert_eq!(app.health_at(e, 5), Some(5));
}

#[test]
fn snapshot_for_the_current_frame_is_applied_without_rollback() {
    let mut app = App::new(false);
    let e = app.spawn(10);
    for _ in 0..3 {
        app.tick();
    }
    app.insert_snapshot(e, 3, 50);
    app.tick();
    assert_eq!(app.num_rollbacks(), 0);
    assert_eq!(app.tw.stats.non_rollback_updates, 1);
    assert_eq!(app.health(e), Some(49));
    assert_eq!(app.health_at(e, 4), Some(49));
}

#[test]
fn snapshot_older_than_the_history_is_a_range_fault() {
    let mut app = App::new(false);
    let e = app.spawn(10);
    for _ in 0..15 {
        app.tick();
    }
    // history keeps frames 6..=15; the snapshot buffer keeps far more
    app.insert_snapshot(e, 2, 100);
    app.tick();
    assert_eq!(app.tw.stats.range_faults, 1);
    assert_eq!(app.num_rollbacks(), 0);
    assert_eq!(app.health(e), Some(-6));
}

#[test]
fn despawn_markers() {
    let mut app = App::new(false);
    let e1 = app.spawn(10);
    assert_eq!(app.num_rollbacks(), 0);

    app.tick(); // frame 1
    assert_eq!(app.health(e1), Some(9));
    app.tick(); // frame 2
    app.tick(); // frame 3
    assert_eq!(app.health(e1), Some(7));
    assert_eq!(app.health_at(e1, 1), Some(9));
    assert_eq!(app.health_at(e1, 2), Some(8));
    assert_eq!(app.health_at(e1, 3), Some(7));

    let despawn_frame = 4;
    app.mark_despawn(e1, DespawnMarker::for_frame(despawn_frame));
    app.tick(); // frame 4
    assert!(app.alive[e1], "entity should still exist");
    assert!(app.health(e1).is_none(), "Enemy component should be missing");

    for _ in 0..TEST_ROLLBACK_WINDOW {
        app.tick();
    }
    assert!(!app.alive[e1], "entity should be gone by now");
}

#[test]
fn despawn_revival_during_rollback() {
    let mut app = App::new(false);
    let e1 = app.spawn(10);
    assert_eq!(app.num_rollbacks(), 0);

    app.tick(); // frame 1
    assert_eq!(app.health(e1), Some(9));
    app.tick(); // frame 2
    app.tick(); // frame 3
    assert_eq!(app.health(e1), Some(7));
    assert_eq!(app.health_at(e1, 1), Some(9));
    assert_eq!(app.health_at(e1, 2), Some(8));
    assert_eq!(app.health_at(e1, 3), Some(7));

    let despawn_frame = 4;
    app.mark_despawn(e1, DespawnMarker::for_frame(despawn_frame));
    app.tick(); // frame 4
    assert!(app.alive[e1], "entity should still exist");
    assert!(app.health(e1).is_none(), "Enemy component should be missing");

    // a rollback that revives the component for a while
    app.insert_snapshot(e1, 2, 100);
    app.tick();
    assert_eq!(app.num_rollbacks(), 1);
    assert!(app.alive[e1], "entity should still exist");
    assert!(app.health(e1).is_none(), "Enemy component should still be missing");
    assert_eq!(app.health_at(e1, 2), Some(100));
    assert_eq!(app.health_at(e1, 3), Some(99));
    assert_eq!(app.health_at(e1, 4), Some(98));
    assert!(app.health_at(e1, 5).is_none());

    for _ in 1..TEST_ROLLBACK_WINDOW {
        assert!(app.alive[e1], "entity should not be gone before the window elapsed");
        app.tick();
    }
    assert!(!app.alive[e1], "entity should be gone by now");
}

#[test]
fn error_correction() {
    let mut app = App::new(true);
    let e1 = app.spawn(10);
    assert_eq!(app.num_rollbacks(), 0);

    app.tick(); // frame 1
    app.tick(); // frame 2
    app.tick(); // frame 3
    app.tick(); // frame 4
    assert_eq!(app.tw.frame(), 4);
    assert_eq!(app.health(e1), Some(6));
    assert_eq!(app.health_at(e1, 4), Some(6));

    app.insert_snapshot(e1, 2, 100);
    assert!(app.enemies.correction(e1).is_none());

    app.tick(); // frame 5, with a rollback
    assert!(app.enemies.correction(e1).is_some());
    assert_eq!(app.num_rollbacks(), 1);
    assert_eq!(app.health_at(e1, 2), Some(100));
    assert_eq!(app.health_at(e1, 3), Some(99));
    assert_eq!(app.health_at(e1, 4), Some(98));
    assert_eq!(app.health_at(e1, 5), Some(97));
    assert_eq!(app.tw.frame(), 5);

    let twc = app.enemies.correction(e1).unwrap();
    assert_eq!(twc.before.health, 6);
    assert_eq!(twc.after.health, 98);
    assert_eq!(twc.frame, 4);

    app.tick(); // frame 6
    let twc = app.enemies.correction(e1).unwrap();
    assert_eq!(twc.before.health, 6);
    assert_eq!(twc.after.health, 98);
    assert_eq!(twc.frame, 4);

    app.tick(); // frame 7
    app.tick(); // frame 8
    app.tick(); // frame 9
    assert_eq!(app.health_at(e1, 7), Some(95));
    assert_eq!(app.health_at(e1, 9), Some(93));
    assert_eq!(app.health(e1), Some(93));

    app.insert_snapshot(e1, 7, 95);
    app.tick(); // frame 10: the prediction was right, no rollback
    assert_eq!(app.num_rollbacks(), 1);
    assert_eq!(app.health_at(e1, 10), Some(92));
    assert_eq!(app.health(e1), Some(92));
    let twc = app.enemies.correction(e1).unwrap();
    assert_eq!(twc.frame, 4);
}

#[test]
fn identical_resimulation_records_no_correction() {
    let mut app = App::new(true);
    let e1 = app.spawn(10);
    for _ in 0..4 {
        app.tick();
    }
    // forced rollback over a confirmed value: resimulation reproduces the prediction
    app.tw.config = app.tw.config.with_forced_rollback(true);
    app.insert_snapshot(e1, 2, 8);
    app.tick();
    assert_eq!(app.num_rollbacks(), 1);
    assert!(app.enemies.correction(e1).is_none());
    assert_eq!(app.health_at(e1, 4), Some(6));
}

#[test]
fn component_add_and_remove() {
    let mut app = App::new(false);
    let e1 = app.spawn(10);
    app.tick(); // frame 1
    assert_eq!(app.health(e1), Some(9));
    assert!(app.enemies.entities[e1].history.is_some());
    app.tick(); // 8
    app.tick(); // 7
    app.tick(); // 6
    assert_eq!(app.health_at(e1, 3), Some(7));
    assert_eq!(app.health_at(e1, 4), Some(6));
    assert_eq!(app.health(e1), Some(6));
    assert_eq!(app.tw.frame(), 4);

    // the server says a shield was added at frame 3
    let r = app
        .shields
        .insert_component_at_frame(e1, InsertComponentAtFrame::new(3, Shield), &mut app.tw);
    assert_eq!(r, Ok(InsertComponentResult::ComponentsAdded));
    app.tick(); // frame 5
    assert_eq!(app.num_rollbacks(), 1);
    assert!(app.shields.live(e1).is_some());
    assert_eq!(app.health_at(e1, 4), Some(7));
    assert_eq!(app.health_at(e1, 5), Some(7));
    assert_eq!(app.health(e1), Some(7));

    app.tick(); // frame 6
    assert_eq!(app.health_at(e1, 6), Some(7));
    assert_eq!(app.health(e1), Some(7));

    // removing the shield in the live world
    app.shields.set_live(e1, None);
    app.tick(); // frame 7
    app.tick(); // frame 8
    app.tick(); // frame 9
    assert_eq!(app.health_at(e1, 7), Some(6));
    assert_eq!(app.health_at(e1, 8), Some(5));
    assert_eq!(app.health_at(e1, 9), Some(4));
    assert_eq!(app.health(e1), Some(4));
}

#[test]
fn consolidation_oldest_and_newest() {
    let requests = vec![RollbackRequest(3), RollbackRequest(5)];
    let oldest = consolidate_rollback_requests(&requests, RollbackConsolidationStrategy::Oldest, 9)
        .unwrap();
    assert_eq!(oldest.range, 3..9);
    let newest = consolidate_rollback_requests(&requests, RollbackConsolidationStrategy::Newest, 9)
        .unwrap();
    assert_eq!(newest.range, 5..9);
    assert!(consolidate_rollback_requests(&Vec::new(), RollbackConsolidationStrategy::Oldest, 9)
        .is_none());
}

#[test]
fn consolidation_in_one_tick() {
    let config = TimewarpConfig::new()
        .with_rollback_window(TEST_ROLLBACK_WINDOW)
        .with_consolidation_strategy(RollbackConsolidationStrategy::Oldest);
    let mut tw = Timewarp::new(config, TIMESTEP);
    for _ in 0..8 {
        tw.advance_frame();
    }
    tw.request_rollback(RollbackRequest::resimulate_this_frame_onwards(5));
    tw.request_rollback(RollbackRequest::resimulate_this_frame_onwards(3));
    assert!(tw.consolidate());
    assert!(tw.requests.is_empty());
    assert_eq!(tw.rollback.as_ref().unwrap().range, 3..8);
    assert_eq!(tw.start_rollback(), Some(2));
    assert_eq!(tw.frame(), 2);
    assert_eq!(tw.timestep, FAST_FORWARD_TIMESTEP);
    assert_eq!(tw.stats.num_rollbacks, 1);
    // no second rollback while one is under way
    tw.request_rollback(RollbackRequest(4));
    assert!(!tw.consolidate());
}

#[test]
fn too_deep_rollback_is_aborted() {
    let config = TimewarpConfig::new().with_rollback_window(TEST_ROLLBACK_WINDOW);
    let mut tw = Timewarp::new(config, TIMESTEP);
    for _ in 0..20 {
        tw.advance_frame();
    }
    tw.request_rollback(RollbackRequest(10));
    assert!(tw.consolidate());
    assert_eq!(tw.start_rollback(), None);
    assert!(!tw.in_rollback());
    assert_eq!(tw.frame(), 20);
    assert_eq!(tw.stats.num_rollbacks, 0);
    assert_eq!(tw.stats.aborted_rollbacks, 1);
    assert_eq!(tw.timestep, TIMESTEP);
    assert!(tw.previous_rollback.as_ref().unwrap().0.aborted);

    // one frame less deep is run
    tw.request_rollback(RollbackRequest(11));
    assert!(tw.consolidate());
    assert_eq!(tw.start_rollback(), Some(10));
    assert!(tw.in_rollback());
}

#[test]
fn rollback_completes_at_its_end() {
    let config = TimewarpConfig::new();
    let mut tw = Timewarp::new(config, 7);
    for _ in 0..6 {
        tw.advance_frame();
    }
    tw.request_rollback(RollbackRequest(4));
    assert!(tw.consolidate());
    assert_eq!(tw.start_rollback(), Some(3));
    assert!(!tw.complete_rollback());
    tw.advance_frame();
    tw.advance_frame();
    assert!(!tw.complete_rollback());
    tw.advance_frame();
    assert!(tw.complete_rollback());
    assert!(!tw.in_rollback());
    assert_eq!(tw.timestep, 7);
    assert_eq!(tw.previous_rollback.as_ref().unwrap().0.range, 4..6);
}

#[test]
fn despawn_marker_gets_its_frame_and_waits_the_window() {
    let mut marker = DespawnMarker::new();
    assert!(!process_despawn_marker(&mut marker, 4, 10));
    assert_eq!(marker, DespawnMarker::for_frame(4));
    assert!(!process_despawn_marker(&mut marker, 13, 10));
    assert!(process_despawn_marker(&mut marker, 14, 10));
}

#[test]
fn spawning_in_the_past() {
    let mut app = App::new(false);
    let e1 = app.spawn(10);
    assert_eq!(app.num_rollbacks(), 0);
    app.tick(); // frame 1
    app.tick(); // frame 2
    app.tick(); // frame 3
    app.tick(); // frame 4
    assert_eq!(app.health(e1), Some(6));
    assert_eq!(app.health_at(e1, 4), Some(6));

    let e2 = app.spawn_empty();
    assert_eq!(app.insert_at_frame(e2, 2, 100), InsertComponentResult::ComponentsAdded);
    assert_eq!(app.enemies.entities[e2].status.unwrap().last_snap_frame(), 2);
    assert_eq!(
        app.enemies.entities[e2].history.as_ref().unwrap().most_recent_authoritative_frame(),
        2
    );
    let e3 = app.spawn_empty();
    assert_eq!(app.insert_at_frame(e3, 2, 1000), InsertComponentResult::ComponentsAdded);

    app.tick(); // frame 5, with a rollback
    assert_eq!(app.num_rollbacks(), 1);
    assert!(app.health_at(e2, 1).is_none());
    assert_eq!(app.health_at(e2, 2), Some(100));
    assert_eq!(app.health_at(e2, 3), Some(99));
    assert_eq!(app.health_at(e2, 4), Some(98));
    assert_eq!(app.health_at(e2, 5), Some(97));
    assert!(app.health_at(e3, 1).is_none());
    assert_eq!(app.health_at(e3, 2), Some(1000));
    assert_eq!(app.health_at(e3, 5), Some(997));

    let e4 = app.spawn_empty();
    assert_eq!(app.insert_at_frame(e4, 3, 1000), InsertComponentResult::ComponentsAdded);
    app.tick(); // frame 6
    assert!(app.health_at(e4, 2).is_none());
    assert_eq!(app.health_at(e4, 3), Some(1000));
    assert_eq!(app.health_at(e4, 6), Some(997));
    assert!(app.health_at(e2, 1).is_none());
    assert_eq!(app.health_at(e2, 2), Some(100));
    assert_eq!(app.health_at(e2, 3), Some(99));
    assert_eq!(app.health_at(e2, 4), Some(98));
    assert_eq!(app.health_at(e2, 5), Some(97));
    assert!(app.health_at(e3, 1).is_none());
    assert_eq!(app.health_at(e3, 2), Some(1000));
    assert_eq!(app.health_at(e3, 5), Some(997));
}

#[test]
fn spawning_in_the_past_with_ss_partial_updates() {
    let mut app = App::new(false);
    app.tw
        .config
        .set_consolidation_strategy(RollbackConsolidationStrategy::Oldest);
    let e1 = app.spawn(10);
    assert_eq!(app.num_rollbacks(), 0);
    app.tick(); // frame 1
    app.tick(); // frame 2
    app.tick(); // frame 3
    app.tick(); // frame 4
    assert_eq!(app.health(e1), Some(6));
    assert_eq!(app.health_at(e1, 4), Some(6));

    let e2 = app.spawn_empty();
    app.insert_at_frame(e2, 2, 100);
    app.insert_snapshot(e1, 3, 1000);
    app.tick(); // frame 5, one rollback from the oldest request
    assert_eq!(app.num_rollbacks(), 1);
    assert_eq!(app.tw.previous_rollback.as_ref().unwrap().0.range.start, 3);
}

#[test]
fn rollback_over_new_spawn() {
    let mut app = App::new(false);
    let e1 = app.spawn(10);
    let e2 = app.spawn(3);
    assert_eq!(app.num_rollbacks(), 0);
    app.tick(); // frame 1
    app.tick(); // frame 2
    app.tick(); // frame 3
    app.tick(); // frame 4
    assert_eq!(app.tw.frame(), 4);
    assert_eq!(app.health(e1), Some(6));
    assert_eq!(app.health(e2), Some(-1));

    let e3 = app.spawn(3000);
    app.tick(); // frame 5

    app.insert_snapshot(e1, 3, 9999);
    app.tick(); // frame 6, with a rollback
    assert_eq!(app.num_rollbacks(), 1);
    assert!(app.alive[e3], "e3 should still exist");
    assert!(app.health_at(e3, 6).is_some(), "e3's Enemy component should exist");
    assert_eq!(app.health_at(e3, 6), Some(2998));
}

#[test]
fn pending_rollback_is_extended_not_shortened() {
    let mut tw = Timewarp::new(TimewarpConfig::new(), TIMESTEP);
    for _ in 0..8 {
        tw.advance_frame();
    }
    tw.rollback = Some(timewarp::Rollback::new(6, 8));
    tw.request_rollback(RollbackRequest(7));
    assert!(tw.consolidate());
    assert_eq!(tw.rollback.as_ref().unwrap().range, 6..8);
    tw.request_rollback(RollbackRequest(4));
    assert!(tw.consolidate());
    assert_eq!(tw.rollback.as_ref().unwrap().range, 4..8);
    assert!(tw.requests.is_empty());
}

#[test]
fn range_fault_leaves_history_unchanged() {
    let mut app = App::new(false);
    let e = app.spawn(10);
    for _ in 0..15 {
        app.tick();
    }
    let before: Vec<Option<i32>> = (0..20).map(|f| app.health_at(e, f)).collect();
    let auth = app.enemies.entities[e].history.as_ref().unwrap().most_recent_authoritative_frame();
    app.insert_snapshot(e, 2, 100);
    app.enemies.apply_snapshots(&mut app.tw);
    let after: Vec<Option<i32>> = (0..20).map(|f| app.health_at(e, f)).collect();
    assert_eq!(before, after);
    assert_eq!(
        app.enemies.entities[e].history.as_ref().unwrap().most_recent_authoritative_frame(),
        auth
    );
    assert_eq!(app.tw.stats.range_faults, 1);
    assert!(app.tw.requests.is_empty());
    // the status still records the newest authoritative frame received
    assert_eq!(app.enemies.entities[e].status.unwrap().last_snap_frame(), 2);
}

#[test]
fn authoritative_frame_follows_applied_snapshots() {
    let mut app = App::new(false);
    let e = app.spawn(10);
    for _ in 0..4 {
        app.tick();
    }
    app.insert_snapshot(e, 2, 100);
    app.tick();
    assert_eq!(
        app.enemies.entities[e].history.as_ref().unwrap().most_recent_authoritative_frame(),
        2
    );
    assert_eq!(app.enemies.entities[e].status.unwrap().last_snap_frame(), 2);
}

#[test]
fn missing_history_is_detected_before_restoring() {
    let mut app = App::new(false);
    let e = app.spawn(10);
    for _ in 0..4 {
        app.tick();
    }
    assert!(app.enemies.can_restore_all(2));
    // a history that says the value was alive at frame 2 but holds nothing there
    app.enemies.entities[e].history.as_mut().unwrap().remove_frame_and_beyond(1);
    assert!(!app.enemies.entities[e].can_restore(2));
    assert!(!app.enemies.can_restore_all(2));
}

use flecs_core::instance::id::InstanceId;
use flecs_core::quest::{
    DeleteQuestError, Progress, Quest, QuestId, QuestMaster, QuestResult, State, StatusUpdate,
};

struct TestStatusUpdate {
    state: Option<State>,
    details: Option<String>,
    progress: Option<Progress>,
}

impl StatusUpdate for TestStatusUpdate {
    fn reported_progress(&self) -> Option<Progress> {
        self.progress
    }

    fn reported_details(&self) -> Option<String> {
        self.details.clone()
    }

    fn reported_state(&self) -> Option<State> {
        self.state
    }

    fn progress(&self) -> Option<Progress> {
        self.progress
    }

    fn details(&self) -> Option<String> {
        self.details.clone()
    }

    fn state(&self) -> Option<State> {
        self.state
    }
}

fn quest(id: u64) -> Quest {
    Quest::new(QuestId(id), format!("Test Quest #{id}"))
}

#[test]
fn states_that_are_finished() {
    assert!(State::Failed.is_finished());
    assert!(State::Success.is_finished());
    assert!(State::Skipped.is_finished());
    assert!(!State::Failing.is_finished());
    assert!(!State::Ongoing.is_finished());
    assert!(!State::Pending.is_finished());
    assert_eq!(State::Ongoing.to_string(), "Ongoing");
    assert_eq!(State::Skipped.to_string(), "Skipped");
}

#[test]
fn result_model_strings() {
    assert_eq!(QuestResult::NoResult.to_model_string(), None);
    assert_eq!(
        QuestResult::InstanceId(InstanceId::new(0xabc)).to_model_string(),
        Some("00000abc".to_string())
    );
    assert_eq!(
        QuestResult::ExportId("export".to_string()).to_model_string(),
        Some("export".to_string())
    );
}

#[test]
fn test_fail() {
    let mut quest = quest(1);
    assert_eq!(quest.state, State::Pending);
    quest.fail_with_error("broken");
    assert_eq!(quest.state, State::Failed);
    assert_eq!(quest.detail, Some("broken".to_string()));
}

#[test]
fn test_status_update() {
    let mut quest = quest(1);
    let empty_update = TestStatusUpdate {
        state: None,
        details: None,
        progress: None,
    };
    quest.update(&empty_update);
    assert_eq!(quest.state, State::Pending);
    assert_eq!(quest.progress, None);
    assert_eq!(quest.detail, None);
    let update = TestStatusUpdate {
        state: Some(State::Failing),
        details: Some("Details".to_string()),
        progress: Some(Progress {
            total: Some(1000),
            current: 100,
        }),
    };
    quest.update(&update);
    assert_eq!(quest.state, State::Failing);
    assert_eq!(quest.progress, update.progress);
    assert_eq!(quest.detail, update.details);
    quest.update(&empty_update);
    assert_eq!(quest.state, State::Failing);
    assert_eq!(quest.progress, None);
    assert_eq!(quest.detail, None);
}

#[test]
fn test_add_progress() {
    let mut quest = quest(1);
    quest.add_progress(100);
    assert_eq!(
        quest.progress,
        Some(Progress {
            total: None,
            current: 100
        })
    );
    quest.progress = Some(Progress {
        total: Some(10000),
        current: 500,
    });
    quest.add_progress(100);
    assert_eq!(
        quest.progress,
        Some(Progress {
            total: Some(10000),
            current: 600,
        })
    );
}

#[test]
fn test_subquest_progress() {
    let mut quest = quest(1);
    assert_eq!(
        quest.sub_quest_progress(),
        Progress {
            current: 0,
            total: Some(0)
        }
    );
    quest.sub_quests.push(self::quest(2));
    quest.sub_quests.push(self::quest(3));
    assert_eq!(
        quest.sub_quest_progress(),
        Progress {
            current: 0,
            total: Some(2)
        }
    );
    quest.sub_quests[0].state = State::Failed;
    assert_eq!(quest.sub_quest_progress().current, 1);
    quest.sub_quests[1].state = State::Success;
    assert_eq!(quest.sub_quest_progress().current, 2);
}

#[test]
fn finish_keeps_final_state() {
    let mut ongoing = quest(1);
    ongoing.start();
    assert_eq!(ongoing.state, State::Ongoing);
    ongoing.finish(None);
    assert_eq!(ongoing.state, State::Success);
    let mut failed = quest(2);
    failed.state = State::Failed;
    failed.finish(None);
    assert_eq!(failed.state, State::Failed);
    let mut failing = quest(3);
    failing.finish(Some("TestError"));
    assert_eq!(failing.state, State::Failed);
    assert_eq!(failing.detail, Some("TestError".to_string()));
}

#[test]
fn result_recorded_once() {
    let mut quest = quest(1);
    quest.record_result(QuestResult::ExportId("first".to_string()));
    quest.record_result(QuestResult::ExportId("second".to_string()));
    assert_eq!(quest.result, QuestResult::ExportId("first".to_string()));
}

#[test]
fn quest_master_query_and_delete() {
    let mut master = QuestMaster::new();
    for id in [1, 2, 3, 5] {
        let mut q = quest(id);
        q.state = State::Ongoing;
        master.add_quest(q);
    }
    assert_eq!(master.query_quest(QuestId(2)).unwrap().id, QuestId(2));
    assert!(master.query_quest(QuestId(4)).is_none());
    assert_eq!(master.get_quests(), vec![QuestId(1), QuestId(2), QuestId(3), QuestId(5)]);
    assert_eq!(
        master.delete_quest(QuestId(4)).err(),
        Some(DeleteQuestError::Unknown)
    );
    assert_eq!(
        master.delete_quest(QuestId(2)).err(),
        Some(DeleteQuestError::StillRunning)
    );
    let mut done = quest(2);
    done.state = State::Success;
    master.add_quest(done);
    assert_eq!(master.get_quests().len(), 4);
    assert_eq!(master.delete_quest(QuestId(2)).unwrap().state, State::Success);
    assert!(master.query_quest(QuestId(2)).is_none());
    assert_eq!(master.get_quests(), vec![QuestId(1), QuestId(3), QuestId(5)]);
}

#[test]
fn quest_tree_text() {
    let mut root = quest(1);
    root.detail = Some("d".to_string());
    let mut a = quest(2);
    a.state = State::Success;
    a.progress = Some(Progress {
        current: 3,
        total: Some(10),
    });
    let mut b = quest(3);
    b.state = State::Ongoing;
    b.progress = Some(Progress {
        current: 5,
        total: None,
    });
    b.sub_quests.push(quest(4));
    let mut c = quest(5);
    c.progress = Some(Progress {
        current: 7,
        total: None,
    });
    root.sub_quests.push(a);
    root.sub_quests.push(b);
    root.sub_quests.push(c);
    assert_eq!(
        root.fmt(),
        "Test Quest #1: Pending (d) 1/3\n  Test Quest #2: Success 3/10\n  Test Quest #3: Ongoing 0/1\n    Test Quest #4: Pending\n  Test Quest #5: Pending 7\n"
    );
}

#[test]
fn quest_model_reports_tree() {
    let mut root = quest(1);
    root.result = QuestResult::InstanceId(InstanceId::new(0x10));
    let mut a = quest(2);
    a.state = State::Success;
    a.progress = Some(Progress {
        current: 1,
        total: Some(4),
    });
    let b = quest(3);
    root.sub_quests.push(a);
    root.sub_quests.push(b);
    let model = root.create_model();
    assert_eq!(model.id, 1);
    assert_eq!(model.result, Some("00000010".to_string()));
    assert_eq!(
        model.progress,
        Some(Progress {
            current: 1,
            total: Some(2),
        })
    );
    let subquests = model.subquests.unwrap();
    assert_eq!(subquests.len(), 2);
    assert_eq!(subquests[0].id, 2);
    assert_eq!(
        subquests[0].progress,
        Some(Progress {
            current: 1,
            total: Some(4),
        })
    );
    assert!(subquests[0].subquests.is_none());
    assert_eq!(subquests[1].state, State::Pending);
    assert_eq!(subquests[1].progress, None);
}

use vstd::prelude::*;

verus! {

// ---- What the battle server sends ----

/// The server's answer to a battle check.
#[derive(Debug)]
pub struct CheckResult {
    pub cmd: String,
    pub result: String,
    pub b_name: String,
    pub n: i32,
    pub id: String,
    pub is_ver: bool,
    pub ptn_idx: i32,
    pub reason: String,
}

/// The server's answer to a request to join a battle.
#[derive(Debug)]
pub struct JoinResult {
    pub cmd: String,
    pub result: String,
    pub msg: String,
    pub test_id: i32,
    pub test_time: i32,
    pub test_random: bool,
    pub b_name: String,
    pub b_image: Option<bool>,
    pub b_user_idx: String,
    /// Whether the battle is already over.
    pub is_end: bool,
    /// Whether the battle has already started.
    pub is_start: bool,
    pub b_mode: i32,
    /// The index of the word set.
    pub set_idx: i32,
    /// The name of the word set.
    pub set_name: String,
    /// The type of the word set.
    pub set_type: i32,
    pub b_text: Option<bool>,
    pub is_event: i32,
    pub ptn_idx: i32,
}

/// One option of a question, as the server describes it.
#[derive(Debug)]
pub struct QuestOption {
    pub option_idx: String,
    pub option_quest: String,
}

/// A question of the battle: the word on the front of the card, its meaning on
/// the back, and the choices offered for the back.
#[derive(Debug)]
pub struct Quest {
    pub test_card_idx: String,
    pub front: String,
    pub back: String,
    pub example_sentence: String,
    pub back_quest: Vec<String>,
}

/// The questions of a battle.
#[derive(Debug)]
pub struct QuestList {
    pub result: String,
    pub msg: String,
    pub quest_list: Option<Vec<Quest>>,
}

/// The message by which the server starts a battle.
#[derive(Debug)]
pub struct TestStart {
    pub cmd: String,
    pub rank_id: String,
    pub is_field: i32,
}

/// The server's acknowledgement of a rank report.
#[derive(Debug)]
pub struct SendRankResult {
    pub cmd: String,
}

// ---- What the client sends ----

/// Asks the server whether a battle exists.
#[derive(Debug)]
pub struct CheckRequest {
    pub cmd: String,
    pub battle_id: String,
    pub is_auto: bool,
    pub major_ver: i32,
    pub minor_ver: i32,
}

/// Asks the server to let a player into a battle (`is_add` 0), or confirms
/// the player's entry (`is_add` 1).
#[derive(Debug)]
pub struct JoinRequest {
    pub cmd: String,
    pub battle_id: String,
    pub user_name: String,
    pub is_add: i32,
    pub is_auto: bool,
    pub platform: String,
    pub browser: String,
    pub major_ver: i32,
    pub minor_ver: i32,
}

/// One answered question in a rank report.
#[derive(Debug)]
pub struct RankQuest {
    pub card_idx: String,
    pub score: i32,
    /// 1 for a correct answer, 0 for a wrong one.
    pub correct_yn: i32,
}

/// Reports the player's total score and the answers given since the last
/// report.
#[derive(Debug)]
pub struct RankRequest {
    pub cmd: String,
    pub total_score: i32,
    pub quest: Vec<RankQuest>,
}

/// A form posted over HTTP: where it goes, the headers it carries, and its
/// fields in order.
#[derive(Debug)]
pub struct FormRequest {
    pub url: String,
    pub user_agent: String,
    pub accept: String,
    pub params: Vec<(String, String)>,
}

// ---- Views ----

pub struct CheckRequestView {
    pub cmd: Seq<char>,
    pub battle_id: Seq<char>,
    pub is_auto: bool,
    pub major_ver: i32,
    pub minor_ver: i32,
}

impl View for CheckRequest {
    type V = CheckRequestView;

    open spec fn view(&self) -> CheckRequestView {
        CheckRequestView {
            cmd: self.cmd@,
            battle_id: self.battle_id@,
            is_auto: self.is_auto,
            major_ver: self.major_ver,
            minor_ver: self.minor_ver,
        }
    }
}

pub struct JoinRequestView {
    pub cmd: Seq<char>,
    pub battle_id: Seq<char>,
    pub user_name: Seq<char>,
    pub is_add: i32,
    pub is_auto: bool,
    pub platform: Seq<char>,
    pub browser: Seq<char>,
    pub major_ver: i32,
    pub minor_ver: i32,
}

impl View for JoinRequest {
    type V = JoinRequestView;

    open spec fn view(&self) -> JoinRequestView {
        JoinRequestView {
            cmd: self.cmd@,
            battle_id: self.battle_id@,
            user_name: self.user_name@,
            is_add: self.is_add,
            is_auto: self.is_auto,
            platform: self.platform@,
            browser: self.browser@,
            major_ver: self.major_ver,
            minor_ver: self.minor_ver,
        }
    }
}

pub struct RankQuestView {
    pub card_idx: Seq<char>,
    pub score: i32,
    pub correct_yn: i32,
}

impl View for RankQuest {
    type V = RankQuestView;

    open spec fn view(&self) -> RankQuestView {
        RankQuestView { card_idx: self.card_idx@, score: self.score, correct_yn: self.correct_yn }
    }
}

pub struct RankRequestView {
    pub cmd: Seq<char>,
    pub total_score: i32,
    pub quest: Seq<RankQuestView>,
}

impl View for RankRequest {
    type V = RankRequestView;

    open spec fn view(&self) -> RankRequestView {
        RankRequestView {
            cmd: self.cmd@,
            total_score: self.total_score,
            quest: self.quest@.map_values(|q: RankQuest| q@),
        }
    }
}

pub struct FormRequestView {
    pub url: Seq<char>,
    pub user_agent: Seq<char>,
    pub accept: Seq<char>,
    pub params: Seq<(Seq<char>, Seq<char>)>,
}

impl View for FormRequest {
    type V = FormRequestView;

    open spec fn view(&self) -> FormRequestView {
        FormRequestView {
            url: self.url@,
            user_agent: self.user_agent@,
            accept: self.accept@,
            params: self.params@.map_values(|p: (String, String)| (p.0@, p.1@)),
        }
    }
}

} // verus!

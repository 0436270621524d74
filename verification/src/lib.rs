//! A client library for the Classcard word-battle game: the game session's
//! state, the messages it exchanges with the battle server, and the rules by
//! which answers are scored, buffered and reported.

mod console;
mod endpoint;
mod error;
mod laws;
mod messages;
mod socket;
mod text;

pub use error::{error_text, Error};
pub use endpoint::{battle_port, endpoint, endpoint_text, endpoint_uri, uri_error_text, uri_from_text};
pub use text::{append_decimal, decimal, decimal_string, digit_char, nat_decimal};
pub use messages::{
    CheckRequest, CheckRequestView, CheckResult, FormRequest, FormRequestView, JoinRequest,
    JoinRequestView, JoinResult, Quest, QuestList, QuestOption, RankQuest, RankQuestView,
    RankRequest, RankRequestView, SendRankResult, TestStart,
};
pub use socket::{
    after_submit, answer_score, buffer_view, can_submit, check_rank_ack, check_request,
    default_user_agent, initial_socket, join_request, quest_form, rank_quest, rank_request,
    report_view, score_form, FinalSubmission, Socket, SocketView, Submission,
};
pub use console::{
    answer_action, digits_value, input, input_num, input_step, is_digit, parsed_i32, AnswerAction,
};
pub use laws::{
    correct_count, law_buffer_holds_answers_since_report, law_every_answer_reported_once,
    law_initial_session_counts, law_any_choice_accepted, law_check_names_the_battle,
    law_endpoint_names_the_port, law_error_texts, law_final_report, law_fresh_session, law_one_answer, law_decimal_reads_back,
    law_final_form_counts_all_answers, law_join_messages_name_the_battle, law_port_blocks,
    law_quest_form_asks_for_joined_test, law_score_form_counts_whole_session, law_large_buffer_holds_answers,
    law_score_accounting, law_unit_buffer_reports_each_answer, reported, run_allowed, score_sum, scored,
    submit_run,
};

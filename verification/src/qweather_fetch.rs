//! The two questions that QWeather is asked for one snapshot: the present weather first, and the coming
//! days only once that is known.

use crate::model::WeatherSnapshot;
use crate::weather::{
    is_qweather_result, now_refusal, qweather_now, qweather_today, today_refusal, Failure,
    QWeatherDailyResponse, QWeatherNow, QWeatherNowResponse, QWeatherProvider, WeatherError,
};
use vstd::prelude::*;

verus! {

/// How far a fetch has come.
#[derive(Debug)]
pub enum QWeatherFetch {
    /// The present weather was asked for.
    AwaitNow,
    /// The present weather is known, and the coming days were asked for.
    AwaitDaily(QWeatherNow),
    /// The fetch is over.
    Over,
}

/// What came back.
pub enum QWeatherAnswer {
    /// An answer on the present weather.
    Now(QWeatherNowResponse),
    /// An answer on the coming days.
    Daily(QWeatherDailyResponse),
    /// The service could not be asked, or its answer could not be read.
    Failed(String),
}

/// What to do next.
#[derive(Debug, PartialEq)]
pub enum QWeatherAction<R> {
    /// Ask for the present weather.
    AskNow,
    /// Ask for the coming days.
    AskDaily,
    /// Ask nothing: the answer was not the one that is awaited.
    Wait,
    /// The fetch is over, and came to this.
    Done(Result<WeatherSnapshot<R>, WeatherError>),
}

/// A question to the service.
pub enum Question {
    Now,
    Daily,
}

/// The question in an action, if it is one.
pub open spec fn question<R>(action: QWeatherAction<R>) -> Option<Question> {
    match action {
        QWeatherAction::AskNow => Some(Question::Now),
        QWeatherAction::AskDaily => Some(Question::Daily),
        _ => None,
    }
}

/// How far a fetch has come after an answer.
pub open spec fn fetch_after(state: QWeatherFetch, answer: QWeatherAnswer) -> QWeatherFetch {
    match (state, answer) {
        (QWeatherFetch::Over, _) => QWeatherFetch::Over,
        (_, QWeatherAnswer::Failed(_)) => QWeatherFetch::Over,
        (QWeatherFetch::AwaitNow, QWeatherAnswer::Now(resp)) => if now_refusal(resp) is None {
            QWeatherFetch::AwaitDaily(resp.now->0)
        } else {
            QWeatherFetch::Over
        },
        (QWeatherFetch::AwaitDaily(_), QWeatherAnswer::Daily(_)) => QWeatherFetch::Over,
        (s, _) => s,
    }
}

/// The question that follows an answer, if any: the coming days are asked for where the present weather
/// was awaited and is now known.
pub open spec fn question_after(state: QWeatherFetch, answer: QWeatherAnswer) -> Option<Question> {
    if state is AwaitNow && fetch_after(state, answer) is AwaitDaily {
        Some(Question::Daily)
    } else {
        None
    }
}

/// Whether an answer ends a fetch.
pub open spec fn ends(state: QWeatherFetch, answer: QWeatherAnswer) -> bool {
    !(state is Over) && fetch_after(state, answer) is Over
}

/// Whether `r` is what a fetch comes to that an answer ends.
pub open spec fn is_outcome<R, P: Fn(&str) -> Option<R>>(
    city: Seq<char>,
    state: QWeatherFetch,
    answer: QWeatherAnswer,
    parse: P,
    ts_ms: u64,
    r: Result<WeatherSnapshot<R>, WeatherError>,
) -> bool {
    match (state, answer) {
        (_, QWeatherAnswer::Failed(why)) => r matches Err(e) && e@ == Failure::Http(why@),
        (QWeatherFetch::AwaitNow, QWeatherAnswer::Now(resp)) => r matches Err(e) && Some(e@)
            == now_refusal(resp),
        (QWeatherFetch::AwaitDaily(now), QWeatherAnswer::Daily(resp)) => if today_refusal(
            resp,
        ) is None {
            is_qweather_result(city, now, resp.daily->0@[0], parse, ts_ms, r)
        } else {
            r matches Err(e) && Some(e@) == today_refusal(resp)
        },
        _ => false,
    }
}

impl QWeatherFetch {
    /// A fetch starts with the present weather.
    pub fn start<R>() -> (started: (Self, QWeatherAction<R>))
        ensures
            started.0 is AwaitNow,
            started.1 is AskNow,
    {
        (QWeatherFetch::AwaitNow, QWeatherAction::AskNow)
    }

    /// Takes in an answer that came at `ts_ms`, and says what to do next. `parse` reads a temperature.
    pub fn step<F, R: Copy, P: Fn(&str) -> Option<R>>(
        self,
        provider: &QWeatherProvider<F>,
        answer: QWeatherAnswer,
        parse: P,
        ts_ms: u64,
    ) -> (next: (Self, QWeatherAction<R>))
        requires
            forall|t: &str| call_requires(parse, (t,)),
        ensures
            next.0 == fetch_after(self, answer),
            question(next.1) == question_after(self, answer),
            next.1 is Done <==> ends(self, answer),
            next.1 matches QWeatherAction::Done(r) ==> is_outcome(
                provider.city_label@,
                self,
                answer,
                parse,
                ts_ms,
                r,
            ),
    {
        match (self, answer) {
            (QWeatherFetch::Over, _) => (QWeatherFetch::Over, QWeatherAction::Wait),
            (_, QWeatherAnswer::Failed(why)) => (
                QWeatherFetch::Over,
                QWeatherAction::Done(Err(WeatherError::Http(why))),
            ),
            (QWeatherFetch::AwaitNow, QWeatherAnswer::Now(resp)) => match qweather_now(resp) {
                Ok(now) => (QWeatherFetch::AwaitDaily(now), QWeatherAction::AskDaily),
                Err(e) => (QWeatherFetch::Over, QWeatherAction::Done(Err(e))),
            },
            (QWeatherFetch::AwaitDaily(now), QWeatherAnswer::Daily(resp)) => {
                let r: Result<WeatherSnapshot<R>, WeatherError> = match qweather_today(resp) {
                    Ok(today) => provider.snapshot(now, today, parse, ts_ms),
                    Err(e) => Err(e),
                };
                (QWeatherFetch::Over, QWeatherAction::Done(r))
            },
            (state, _) => (state, QWeatherAction::Wait),
        }
    }
}

/// How far a fetch has come after a row of answers.
pub open spec fn fetch_run(answers: Seq<QWeatherAnswer>) -> QWeatherFetch
    decreases answers.len(),
{
    if answers.len() == 0 {
        QWeatherFetch::AwaitNow
    } else {
        fetch_after(fetch_run(answers.drop_last()), answers.last())
    }
}

/// The questions that a fetch asks in the course of a row of answers.
pub open spec fn questions(answers: Seq<QWeatherAnswer>) -> Seq<Question>
    decreases answers.len(),
{
    if answers.len() == 0 {
        seq![Question::Now]
    } else {
        match question_after(fetch_run(answers.drop_last()), answers.last()) {
            Some(q) => questions(answers.drop_last()).push(q),
            None => questions(answers.drop_last()),
        }
    }
}

/// How often a fetch comes to an end in the course of a row of answers.
pub open spec fn endings(answers: Seq<QWeatherAnswer>) -> nat
    decreases answers.len(),
{
    if answers.len() == 0 {
        0
    } else {
        endings(answers.drop_last()) + if ends(fetch_run(answers.drop_last()), answers.last()) {
            1nat
        } else {
            0
        }
    }
}

/// Whether the present weather became known in the course of a row of answers: the first one that is
/// not about the coming days has it.
pub open spec fn now_was_given(answers: Seq<QWeatherAnswer>) -> bool {
    exists|i: int|
        {
            &&& 0 <= i < answers.len()
            &&& (#[trigger] answers[i]) matches QWeatherAnswer::Now(resp)
            &&& now_refusal(resp) is None
            &&& forall|j: int| 0 <= j < i ==> (#[trigger] answers[j]) is Daily
        }
}

/// Whatever comes back, QWeather is asked at most twice: for the present weather, and for the coming
/// days exactly where the present weather was given. A fetch ends at most once, and has ended exactly
/// where nothing is awaited any more.
pub proof fn asked_at_most_twice(answers: Seq<QWeatherAnswer>)
    ensures
        questions(answers) == (if now_was_given(answers) {
            seq![Question::Now, Question::Daily]
        } else {
            seq![Question::Now]
        }),
        endings(answers) == (if fetch_run(answers) is Over {
            1nat
        } else {
            0
        }),
    decreases answers.len(),
{
    course_of_a_fetch(answers);
    if answers.len() > 0 {
        let head = answers.drop_last();
        asked_at_most_twice(head);
        course_of_a_fetch(head);
        given_so_far(answers);
        assert(seq![Question::Now].push(Question::Daily) =~= seq![Question::Now, Question::Daily]);
    }
}

/// Where a fetch awaits the present weather, nothing but answers about the coming days came; where it
/// awaits the coming days, the present weather was given.
proof fn course_of_a_fetch(answers: Seq<QWeatherAnswer>)
    ensures
        fetch_run(answers) is AwaitNow <==> forall|j: int|
            0 <= j < answers.len() ==> (#[trigger] answers[j]) is Daily,
        fetch_run(answers) is AwaitDaily ==> now_was_given(answers),
    decreases answers.len(),
{
    if answers.len() > 0 {
        let head = answers.drop_last();
        let n = head.len() as int;
        course_of_a_fetch(head);
        given_so_far(answers);
        if fetch_run(head) is AwaitNow {
            assert forall|j: int| 0 <= j < n implies (#[trigger] answers[j]) is Daily by {
                assert(head[j] is Daily);
            }
            if answers.last() is Daily {
                assert forall|j: int| 0 <= j < answers.len() implies (
                #[trigger] answers[j]) is Daily by {}
            } else {
                assert(!(answers[n] is Daily));
            }
        } else {
            let j = choose|j: int| 0 <= j < head.len() && !((#[trigger] head[j]) is Daily);
            assert(!(answers[j] is Daily));
        }
    }
}

/// The present weather is given by the last answer or was before.
proof fn given_so_far(answers: Seq<QWeatherAnswer>)
    requires
        answers.len() > 0,
    ensures
        now_was_given(answers) <==> {
            ||| now_was_given(answers.drop_last())
            ||| {
                &&& answers.last() matches QWeatherAnswer::Now(resp)
                &&& now_refusal(resp) is None
                &&& forall|j: int|
                    0 <= j < answers.len() - 1 ==> (#[trigger] answers.drop_last()[j]) is Daily
            }
        },
{
    let head = answers.drop_last();
    let n = head.len() as int;
    assert forall|j: int| 0 <= j < n implies #[trigger] head[j] == answers[j] by {}
    if now_was_given(head) {
        let i = choose|i: int|
            {
                &&& 0 <= i < head.len()
                &&& (#[trigger] head[i]) matches QWeatherAnswer::Now(resp)
                &&& now_refusal(resp) is None
                &&& forall|j: int| 0 <= j < i ==> (#[trigger] head[j]) is Daily
            };
        assert(answers[i] == head[i]);
        assert forall|j: int| 0 <= j < i implies (#[trigger] answers[j]) is Daily by {
            assert(head[j] is Daily);
        }
    }
    if now_was_given(answers) {
        let i = choose|i: int|
            {
                &&& 0 <= i < answers.len()
                &&& (#[trigger] answers[i]) matches QWeatherAnswer::Now(resp)
                &&& now_refusal(resp) is None
                &&& forall|j: int| 0 <= j < i ==> (#[trigger] answers[j]) is Daily
            };
        assert forall|j: int| 0 <= j < i implies (#[trigger] head[j]) is Daily by {
            assert(answers[j] is Daily);
        }
        if i < n {
            assert(head[i] == answers[i]);
        }
    }
    if answers.last() is Now && (forall|j: int| 0 <= j < n ==> (#[trigger] head[j]) is Daily) {
        assert(answers[n] == answers.last());
        assert forall|j: int| 0 <= j < n implies (#[trigger] answers[j]) is Daily by {
            assert(head[j] is Daily);
        }
    }
}

/// What a fetch comes to tells why it ended: a request that failed, a refusal of the one question or the
/// other, or the two answers together.
pub proof fn outcomes_tell_the_cause<R, P: Fn(&str) -> Option<R>>(
    city: Seq<char>,
    state: QWeatherFetch,
    answer: QWeatherAnswer,
    parse: P,
    ts_ms: u64,
    r: Result<WeatherSnapshot<R>, WeatherError>,
)
    requires
        ends(state, answer),
        is_outcome(city, state, answer, parse, ts_ms, r),
    ensures
        answer matches QWeatherAnswer::Failed(why) ==> r matches Err(e) && e@ == Failure::Http(
            why@,
        ),
        answer matches QWeatherAnswer::Now(resp) ==> {
            &&& state is AwaitNow
            &&& now_refusal(resp) is Some
            &&& r matches Err(e) && e@ == now_refusal(resp)->0
        },
        answer matches QWeatherAnswer::Daily(resp) ==> {
            &&& state is AwaitDaily
            &&& today_refusal(resp) matches Some(f) ==> (r matches Err(e) && e@ == f)
            &&& today_refusal(resp) is None ==> is_qweather_result(
                city,
                state->AwaitDaily_0,
                resp.daily->0@[0],
                parse,
                ts_ms,
                r,
            )
        },
{
}

/// The present weather that a fetch goes on with is the one that was given, and only a good answer on it
/// leads to the second question.
pub proof fn the_days_follow_the_present(state: QWeatherFetch, answer: QWeatherAnswer)
    ensures
        question_after(state, answer) is Some <==> state is AwaitNow && (
        answer matches QWeatherAnswer::Now(resp) && resp.code@ == "200"@ && resp.now is Some),
        question_after(state, answer) is Some ==> question_after(state, answer) == Some(
            Question::Daily,
        ) && fetch_after(state, answer) == QWeatherFetch::AwaitDaily(answer->Now_0.now->0),
        answer is Failed ==> fetch_after(state, answer) is Over,
        state is AwaitDaily && answer is Daily ==> fetch_after(state, answer) is Over,
        state is AwaitDaily && answer is Now ==> fetch_after(state, answer) == state,
        state is AwaitNow && answer is Daily ==> fetch_after(state, answer) == state,
{
}

} // verus!

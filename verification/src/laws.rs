//! What holds of the interactive session across its steps.

use vstd::prelude::*;

use crate::call::{address_add_spec, order_spec, price_spec, Arg, Call};
use crate::command::chosen_token;
use crate::session::{
    abort, accepts, complete, goodbye, invalid_choice_line, is_quit, main_choice,
    may_skip, next, question_count, record, to_menu, well_formed, ActionView, DraftView,
    EffectView, EventView, Failure, Form, NoticeView, SessionView,
};
use crate::text::{is_yes, trimmed};

verus! {

/// Typing `0`, `q`, `quit` or `exit` at the main menu says goodbye and ends
/// the session normally.
pub proof fn quitting_ends_the_session(raw: Seq<char>)
    requires
        is_quit(trimmed(raw)),
    ensures
        next(SessionView::Choosing, EventView::Line(raw)) == (
            SessionView::Ended,
            ActionView { out: seq![NoticeView::Say(goodbye())], effect: EffectView::Exit },
        ),
{
    reveal_strlit("0");
    reveal_strlit("q");
    reveal_strlit("quit");
    reveal_strlit("exit");
    reveal_strlit("1");
    reveal_strlit("2");
    reveal_strlit("3");
    reveal_strlit("4");
    reveal_strlit("5");
    reveal_strlit("6");
    reveal_strlit("7");
    reveal_strlit("8");
    reveal_strlit("9");
    reveal_strlit("10");
    reveal_strlit("11");
    reveal_strlit("12");
    reveal_strlit("13");
    reveal_strlit("14");
    let c = trimmed(raw);
    assert(c != "1"@ && c != "2"@ && c != "3"@ && c != "4"@ && c != "5"@ && c != "6"@ && c
        != "7"@ && c != "8"@ && c != "9"@) by {
        if c == "0"@ || c == "q"@ {
            assert(c[0] != '1' && c[0] != '2' && c[0] != '3' && c[0] != '4' && c[0] != '5');
            assert(c[0] != '6' && c[0] != '7' && c[0] != '8' && c[0] != '9');
        } else {
            assert(c.len() != 1);
        }
    }
    assert(c != "10"@ && c != "11"@ && c != "12"@ && c != "13"@ && c != "14"@) by {
        assert(c.len() != 2);
    }
}

/// A line that is no menu choice is answered with a notice and the menu again.
pub proof fn unknown_choice_shows_the_menu_again(raw: Seq<char>)
    requires
        ({
            let c = trimmed(raw);
            &&& c != "1"@ && c != "2"@ && c != "3"@ && c != "4"@ && c != "5"@
            &&& c != "6"@ && c != "7"@ && c != "8"@ && c != "9"@ && c != "10"@
            &&& c != "11"@ && c != "12"@ && c != "13"@ && c != "14"@
            &&& !is_quit(c)
        }),
    ensures
        next(SessionView::Choosing, EventView::Line(raw)) == to_menu(
            seq![NoticeView::Say(invalid_choice_line())],
        ),
{
}

/// After a tool call that is not the pricing of a quick order, the session
/// returns to the main menu; a failure is reported first.
pub proof fn calls_return_to_the_menu(f: Failure, reason: Seq<char>)
    ensures
        next(SessionView::Waiting { failure: f, draft: None }, EventView::Succeeded) == to_menu(
            seq![],
        ),
        next(SessionView::Waiting { failure: f, draft: None }, EventView::Failed(reason))
            == to_menu(seq![NoticeView::Failed(f, reason)]),
{
}

/// The session asks for confirmation only right after a quick order was
/// priced successfully, and for the same order.
pub proof fn confirmation_follows_pricing(s: SessionView, e: EventView)
    requires
        well_formed(s),
        accepts(s, e),
        next(s, e).0 is Confirming,
    ensures
        e is Succeeded,
        s matches SessionView::Waiting { draft: Some(d), .. } && next(s, e).0 == (
        SessionView::Confirming { draft: d }),
{
    lemma_forms_do_not_confirm(s, e);
}

proof fn lemma_forms_do_not_confirm(s: SessionView, e: EventView)
    requires
        well_formed(s),
        accepts(s, e),
    ensures
        s is Answering ==> !(next(s, e).0 is Confirming) && !(next(s, e).0 is TakeWay),
{
    if let SessionView::Answering { form, answers } = s {
        let i = answers.len() as int;
        match e {
            EventView::Line(raw) => {
                let a = answers.push(
                    if may_skip(form, i) {
                        crate::text::optional_answer(Some(raw))
                    } else {
                        Some(trimmed(raw))
                    },
                );
                lemma_record_neither(form, a);
            },
            EventView::ReadFailed(m) => {
                lemma_record_neither(form, answers.push(None));
            },
            _ => {},
        }
    }
}

proof fn lemma_record_neither(f: Form, a: Seq<Option<Seq<char>>>)
    ensures
        !(record(f, a).0 is Confirming) && !(record(f, a).0 is TakeWay),
{
}

/// The take-way code is asked only for a pick-up order (order type 1), right
/// after it was confirmed.
pub proof fn take_way_only_for_pickup(s: SessionView, e: EventView)
    requires
        well_formed(s),
        accepts(s, e),
        next(s, e).0 is TakeWay,
    ensures
        s matches SessionView::Confirming { draft } && draft.order_type == 1 && next(s, e).0 == (
        SessionView::TakeWay { draft }),
        e matches EventView::Line(raw) && is_yes(trimmed(raw)),
{
    lemma_forms_do_not_confirm(s, e);
}

/// An order is placed only from a confirmed quick order: right after the
/// confirmation when it is not a pick-up order, or after the take-way
/// question when it is.
pub proof fn orders_need_confirmation(s: SessionView, e: EventView)
    requires
        well_formed(s),
        accepts(s, e),
        next(s, e).1.effect matches EffectView::Run(c) && c.tool == "create-order"@,
    ensures
        s is Confirming || s is TakeWay,
        s matches SessionView::Confirming { draft } ==> draft.order_type != 1 && (e matches EventView::Line(
            raw,
        ) && is_yes(trimmed(raw))),
{
    match s {
        SessionView::Answering { form, answers } => {
            lemma_answers_do_not_order(form, answers, e);
        },
        SessionView::Choosing => {
            if let EventView::Line(raw) = e {
                lemma_choices_do_not_order(trimmed(raw));
            }
        },
        SessionView::SubChoosing { menu } => {
            if let EventView::Line(raw) = e {
                lemma_sub_choices_do_not_order(menu, trimmed(raw));
            }
        },
        _ => {},
    }
}

proof fn lemma_sub_choices_do_not_order(m: crate::session::SubMenu, c: Seq<char>)
    ensures
        crate::session::sub_choice(m, c).1.effect matches EffectView::Run(call) ==> call.tool
            != "create-order"@,
{
    reveal_strlit("create-order");
    reveal_strlit("query-my-coupons");
    reveal_strlit("available-coupons");
    reveal_strlit("auto-bind-coupons");
    reveal_strlit("mall-points-products");
    assert("create-order"@.len() == 12);
    assert("query-my-coupons"@.len() == 16);
    assert("available-coupons"@.len() == 17);
    assert("auto-bind-coupons"@.len() == 17);
    assert("mall-points-products"@.len() == 20);
}

proof fn lemma_answers_do_not_order(form: Form, answers: Seq<Option<Seq<char>>>, e: EventView)
    requires
        answers.len() < question_count(form),
    ensures
        next(SessionView::Answering { form, answers }, e).1.effect matches EffectView::Run(c)
            ==> c.tool != "create-order"@,
{
    let s = SessionView::Answering { form, answers };
    let i = answers.len() as int;
    match e {
        EventView::Line(raw) => {
            let a = answers.push(
                if may_skip(form, i) {
                    crate::text::optional_answer(Some(raw))
                } else {
                    Some(trimmed(raw))
                },
            );
            assert(next(s, e) == record(form, a));
            lemma_forms_do_not_order(form, a);
        },
        EventView::ReadFailed(m) => {
            let a = answers.push(None);
            if may_skip(form, i) {
                assert(next(s, e) == record(form, a));
                lemma_forms_do_not_order(form, a);
            }
        },
        _ => {},
    }
}

proof fn lemma_forms_do_not_order(f: Form, a: Seq<Option<Seq<char>>>)
    ensures
        complete(f, a).1.effect matches EffectView::Run(c) ==> c.tool != "create-order"@,
{
    reveal_strlit("create-order");
    reveal_strlit("query-nearby-stores");
    reveal_strlit("delivery-create-address");
    reveal_strlit("query-meals");
    reveal_strlit("query-meal-detail");
    reveal_strlit("query-store-coupons");
    reveal_strlit("mall-product-detail");
    reveal_strlit("mall-create-order");
    reveal_strlit("calculate-price");
    reveal_strlit("query-order");
    let o = "create-order"@;
    assert(o.len() == 12);
    assert("query-order"@.len() == 11);
    assert("query-meals"@.len() == 11);
}

proof fn lemma_choices_do_not_order(c: Seq<char>)
    ensures
        main_choice(c).1.effect matches EffectView::Run(call) ==> call.tool != "create-order"@,
{
    reveal_strlit("create-order");
    reveal_strlit("campaign-calendar");
    reveal_strlit("now-time-info");
    reveal_strlit("query-my-account");
    reveal_strlit("delivery-query-addresses");
    assert("create-order"@.len() == 12);
    assert("now-time-info"@.len() == 13);
}

/// A failed read ends the session with that error, except on a question that
/// may be skipped (it counts as skipped) and while entering a new address
/// (the address is reported as not added and the menu comes back).
pub proof fn failed_reads_end_the_session(s: SessionView, m: Seq<char>)
    requires
        well_formed(s),
        accepts(s, EventView::ReadFailed(m)),
        !(s is TakeWay),
        s matches SessionView::Answering { form, answers } ==> !may_skip(form, answers.len() as int),
    ensures
        (s matches SessionView::Answering { form, .. } && form == Form::NewAddress) ==> next(
            s,
            EventView::ReadFailed(m),
        ) == to_menu(seq![NoticeView::Failed(Failure::AddAddress, m)]),
        !(s matches SessionView::Answering { form, .. } && form == Form::NewAddress) ==> next(
            s,
            EventView::ReadFailed(m),
        ) == abort(m),
{
}

/// For an order that is not a delivery (order type other than 2), the beCode
/// and the address are not sent, whatever was given.
pub proof fn pickup_orders_ignore_delivery_fields(
    store: Seq<char>,
    be: Option<Seq<char>>,
    address: Option<Seq<char>>,
    items: serde_json::Value,
    order_type: int,
    take_way: Option<Seq<char>>,
)
    requires
        order_type != 2,
    ensures
        order_spec(store, be, address, items, order_type, take_way) == order_spec(
            store,
            None,
            None,
            items,
            order_type,
            take_way,
        ),
{
}

/// Every step keeps the session well formed.
pub proof fn steps_keep_the_session_well_formed(s: SessionView, e: EventView)
    requires
        well_formed(s),
        accepts(s, e),
    ensures
        well_formed(next(s, e).0),
{
    match s {
        SessionView::Answering { form, answers } => {
            let i = answers.len() as int;
            let x = match e {
                EventView::Line(raw) => if may_skip(form, i) {
                    crate::text::optional_answer(Some(raw))
                } else {
                    Some(trimmed(raw))
                },
                _ => None,
            };
            let a = answers.push(x);
            if e is Line || may_skip(form, i) {
                assert forall|k: int| 0 <= k < a.len() && !may_skip(form, k) implies (
                #[trigger] a[k]) is Some by {
                    if k < answers.len() {
                        assert(a[k] == answers[k]);
                    }
                }
            }
        },
        _ => {},
    }
}

/// Only the single letter `y`, in either case, confirms an order.
pub proof fn only_y_confirms(s: Seq<char>)
    ensures
        is_yes(s) <==> s.len() == 1 && (s[0] == 'y' || s[0] == 'Y'),
{
    if s.len() == 1 {
        if s[0] == 'y' {
            assert(s =~= seq!['y']);
        } else if s[0] == 'Y' {
            assert(s =~= seq!['Y']);
        }
    }
}

/// Any answer to the confirmation other than `y` or `Y` (after trimming)
/// cancels the quick order: a notice, the main menu again, and no call.
pub proof fn declining_cancels_the_order(d: DraftView, raw: Seq<char>)
    requires
        !(trimmed(raw).len() == 1 && (trimmed(raw)[0] == 'y' || trimmed(raw)[0] == 'Y')),
    ensures
        next(SessionView::Confirming { draft: d }, EventView::Line(raw)) == to_menu(
            seq![NoticeView::Say("已取消下单"@)],
        ),
        !(next(SessionView::Confirming { draft: d }, EventView::Line(raw)).1.effect is Run),
{
    only_y_confirms(trimmed(raw));
}

/// The create-order call sends the store, the items and the requested order
/// type, in that order; the delivery fields follow only for order type 2,
/// and the take-way code last, when given.
pub proof fn orders_carry_the_requested_fields(
    store: Seq<char>,
    be: Option<Seq<char>>,
    address: Option<Seq<char>>,
    items: serde_json::Value,
    order_type: int,
    take_way: Option<Seq<char>>,
)
    ensures
        ({
            let c = order_spec(store, be, address, items, order_type, take_way);
            &&& c.tool == "create-order"@
            &&& c.args.len() >= 3
            &&& c.args[0] == ("storeCode"@, Arg::Text(store))
            &&& c.args[1] == ("items"@, Arg::Json(items))
            &&& c.args[2] == ("orderType"@, Arg::Int(order_type))
            &&& order_type != 2 && take_way is None ==> c.args.len() == 3
            &&& order_type != 2 ==> (take_way matches Some(t) ==> c.args.len() == 4 && c.args[3]
                == ("takeWayCode"@, Arg::Text(t)))
            &&& order_type == 2 ==> (be matches Some(b) ==> c.args[3] == ("beCode"@, Arg::Text(b)))
        }),
{
}

/// The calculate-price call sends the store, the requested order type and the
/// items, in that order, then the beCode when given.
pub proof fn prices_carry_the_requested_fields(
    store: Seq<char>,
    be: Option<Seq<char>>,
    order_type: int,
    items: serde_json::Value,
)
    ensures
        ({
            let c = price_spec(store, be, order_type, items);
            &&& c.tool == "calculate-price"@
            &&& c.args[0] == ("storeCode"@, Arg::Text(store))
            &&& c.args[1] == ("orderType"@, Arg::Int(order_type))
            &&& c.args[2] == ("items"@, Arg::Json(items))
            &&& c.args.len() == if be is Some { 4int } else { 3int }
            &&& be matches Some(b) ==> c.args[3] == ("beCode"@, Arg::Text(b))
        }),
{
}

/// A token given on the command line is always the one used; without it the
/// environment's wins over the configuration file's.
pub proof fn command_line_token_wins(
    cli: Option<Seq<char>>,
    env: Option<Seq<char>>,
    config: Option<Seq<char>>,
)
    ensures
        cli matches Some(c) ==> chosen_token(cli, env, config) == Some(c),
        cli is None ==> (env matches Some(e) ==> chosen_token(cli, env, config) == Some(e)),
        cli is None && env is None ==> chosen_token(cli, env, config) == config,
{
}

/// Each field of a new address goes under its own key, and the address is
/// always for McDelivery (`beType` 2).
pub proof fn address_fields_keep_their_keys(
    city: Seq<char>,
    contact_name: Seq<char>,
    phone: Seq<char>,
    address: Seq<char>,
    address_detail: Seq<char>,
    gender: Option<Seq<char>>,
)
    ensures
        ({
            let c = address_add_spec(city, contact_name, phone, address, address_detail, gender);
            &&& c.tool == "delivery-create-address"@
            &&& c.args[0] == ("city"@, Arg::Text(city))
            &&& c.args[1] == ("contactName"@, Arg::Text(contact_name))
            &&& c.args[2] == ("phone"@, Arg::Text(phone))
            &&& c.args[3] == ("address"@, Arg::Text(address))
            &&& c.args[4] == ("addressDetail"@, Arg::Text(address_detail))
            &&& c.args[5] == ("beType"@, Arg::Int(2))
            &&& c.args.len() == if gender is Some { 7int } else { 6int }
            &&& gender matches Some(g) ==> c.args[6] == ("gender"@, Arg::Text(g))
        }),
{
}

} // verus!

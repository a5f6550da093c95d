//! Laws of the slash-command parser.

use vstd::prelude::*;
use crate::slash::{
    arg_i32, command_table, lemma_registry_finds_each_name, lemma_registry_names_well_formed, spec_dispatch, spec_parse_in_context, ActionView,
    Context, OutcomeView,
};
use crate::text::{all_digits, digits_value, tokens};

verus! {

proof fn lemma_cycle_layer_is_found()
    ensures
        crate::slash::spec_find("cycle-layer"@) == Some(command_table()[16]),
        command_table()[16].name@ == "cycle-layer"@,
        command_table()[16].context == Context::MapPane,
        "cycle-layer"@ != "help"@,
        "cycle-layer"@ != "search-transcript"@,
{
    lemma_registry_finds_each_name();
    reveal_strlit("cycle-layer");
    assert(command_table()[16].name@ == "cycle-layer"@);
    assert(crate::slash::spec_find(command_table()[16].name@) == Some(command_table()[16]));
    reveal_strlit("help");
    reveal_strlit("search-transcript");
    assert("cycle-layer"@.len() == 11);
    assert("help"@.len() == 4);
    assert("search-transcript"@.len() == 17);
}

/// `cycle-layer next` and `cycle-layer prev` move through the map layers in
/// opposite directions, one layer at a time: in every context and for every
/// command prefix, whatever follows the word, `next` asks for the delta 1 and
/// `prev` for the delta -1.
pub proof fn lemma_cycle_layer_next_prev_opposite(next_body: Seq<char>, prev_body: Seq<char>, prefix: char, ctx: Context)
    requires
        tokens(next_body).len() >= 2,
        tokens(next_body)[0] == "cycle-layer"@,
        tokens(next_body)[1] == "next"@,
        tokens(prev_body).len() >= 2,
        tokens(prev_body)[0] == "cycle-layer"@,
        tokens(prev_body)[1] == "prev"@,
    ensures
        spec_parse_in_context(next_body, prefix, ctx) == OutcomeView::Action(ActionView::CycleLayer(1)),
        spec_parse_in_context(prev_body, prefix, ctx) == OutcomeView::Action(ActionView::CycleLayer(-1i32)),
{
    lemma_cycle_layer_is_found();
    reveal_strlit("next");
    reveal_strlit("prev");
    assert(tokens(next_body).drop_first()[0] == "next"@);
    assert(tokens(prev_body).drop_first()[0] == "prev"@);
    assert("prev"@ != "next"@) by {
        assert("prev"@[0] != "next"@[0]);
    }
}

/// The words `next` and `prev` of `cycle-layer` are the signed deltas `1` and
/// `-1` written out: `cycle-layer` gives the same for the word as for the
/// number.
pub proof fn lemma_cycle_layer_words_are_unit_deltas(a: Seq<Seq<char>>, b: Seq<Seq<char>>)
    requires
        a.len() >= 1,
        b.len() >= 1,
    ensures
        a[0] == "next"@ && b[0] == "1"@ ==> spec_dispatch("cycle-layer"@, a) == spec_dispatch("cycle-layer"@, b),
        a[0] == "prev"@ && b[0] == "-1"@ ==> spec_dispatch("cycle-layer"@, a) == spec_dispatch("cycle-layer"@, b),
{
    lemma_cycle_layer_is_found();
    reveal_strlit("next");
    reveal_strlit("prev");
    reveal_strlit("1");
    reveal_strlit("-1");
    assert("prev"@ != "next"@) by {
        assert("prev"@[0] != "next"@[0]);
    }
    assert("1"@ != "next"@ && "1"@ != "prev"@) by {
        assert("1"@.len() != "next"@.len());
    }
    assert("-1"@ != "next"@ && "-1"@ != "prev"@) by {
        assert("-1"@.len() != "next"@.len());
    }
    let one = "1"@;
    assert(all_digits(one) && digits_value(one) == 1) by {
        assert(one.drop_last().len() == 0);
        assert(digits_value(one.drop_last()) == 0);
    }
    let minus_one = "-1"@;
    assert(minus_one.drop_first() =~= one);
    assert(arg_i32(b, 0) == Some(1int) || b[0] != "1"@);
    assert(arg_i32(b, 0) == Some(-1int) || b[0] != "-1"@);
    assert(a[0] == "next"@ ==> spec_dispatch("cycle-layer"@, a) == OutcomeView::Action(ActionView::CycleLayer(1)));
    assert(b[0] == "1"@ ==> spec_dispatch("cycle-layer"@, b) == OutcomeView::Action(ActionView::CycleLayer(1)));
}

proof fn lemma_command_named(k: int)
    requires
        0 <= k < 59,
    ensures
        crate::slash::spec_find(command_table()[k].name@) == Some(command_table()[k]),
        forall|j: int| 0 <= j < k ==> #[trigger] command_table()[j].name@ != command_table()[k].name@,
{
    lemma_registry_names_well_formed();
    lemma_registry_finds_each_name();
}

/// `select-room next` and `select-room prev` move the room selection in
/// opposite directions, whatever words follow.
pub proof fn lemma_select_room_next_prev(a: Seq<Seq<char>>)
    requires
        a.len() >= 1,
    ensures
        a[0] == "next"@ ==> spec_dispatch("select-room"@, a) == OutcomeView::Action(ActionView::SelectNext),
        a[0] == "prev"@ ==> spec_dispatch("select-room"@, a) == OutcomeView::Action(ActionView::SelectPrev),
{
    lemma_command_named(17);
    assert(command_table()[17].name@ == "select-room"@);
    reveal_strlit("next");
    reveal_strlit("prev");
    assert("prev"@ != "next"@) by {
        assert("prev"@[0] != "next"@[0]);
    }
}

/// `zoom-map in` zooms in and `zoom-map out` zooms out, and the word `reset`
/// is the step `0` written out: both reset the zoom.
pub proof fn lemma_zoom_map_words(a: Seq<Seq<char>>, b: Seq<Seq<char>>)
    requires
        a.len() >= 1,
        b.len() >= 1,
    ensures
        a[0] == "in"@ ==> spec_dispatch("zoom-map"@, a) == OutcomeView::Action(ActionView::ZoomIn),
        a[0] == "out"@ ==> spec_dispatch("zoom-map"@, a) == OutcomeView::Action(ActionView::ZoomOut),
        a[0] == "reset"@ && b[0] == "0"@ ==> spec_dispatch("zoom-map"@, a) == spec_dispatch("zoom-map"@, b),
        a[0] == "reset"@ ==> spec_dispatch("zoom-map"@, a) == OutcomeView::Action(ActionView::ZoomReset),
{
    lemma_command_named(13);
    assert(command_table()[13].name@ == "zoom-map"@);
    reveal_strlit("in");
    reveal_strlit("out");
    reveal_strlit("reset");
    reveal_strlit("0");
    assert("in"@ != "out"@ && "in"@ != "reset"@ && "out"@ != "reset"@) by {
        assert("in"@.len() == 2 && "out"@.len() == 3 && "reset"@.len() == 5);
    }
    assert("0"@ != "in"@ && "0"@ != "out"@ && "0"@ != "reset"@) by {
        assert("0"@.len() == 1);
    }
    let zero = "0"@;
    assert(all_digits(zero) && digits_value(zero) == 0) by {
        assert(zero.drop_last().len() == 0);
        assert(digits_value(zero.drop_last()) == 0);
    }
    assert(arg_i32(b, 0) == Some(0int) || b[0] != "0"@);
}

} // verus!

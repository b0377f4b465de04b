//! The small commands: greetings, lurking, lists and links.

use crate::commands::{ChatMessage, ChatMessageView, one};
use crate::db::{Store, StoreView, top_by_wins};
use crate::helpers::choose_item;
use crate::messaging::{
    duel_err_text, item_texts, ItemSeparator, list_text, list_with_title, outbox, Outgoing,
    OutgoingView, reply_to, reply_view, send_duel_err, send_view,
};
use crate::models::{CategoryView, ChatterView, LurkerView};
use crate::text::{decimal, decimal_string};
use vstd::prelude::*;

verus! {

/// The greetings that `!yo` answers with.
pub open spec fn greetings() -> Seq<Seq<char>> {
    seq![
        "yo"@,
        "hey"@,
        "hello"@,
        "hi"@,
        "what's up"@,
        "greetings"@,
        "salutations"@,
        "HAI"@,
        "Ello Gov'na"@,
        "Top of the morning to ya"@,
        "E kaaro"@,
        "Hola"@,
        "Bonjour"@,
        "Ciao"@,
        "Hallo"@,
        "Hej"@,
        "Aloha"@,
        "Namaste"@,
        "Konnichiwa"@,
        "Annyeonghaseyo"@,
        "Ni hao"@,
        "Salaam"@,
        "Shalom"@,
        "Sawubona"@,
        "Jambo"@,
        "Moin"@,
        "Yerrrr"@,
        "Wagwan"@,
        "Wassup"@,
        "Moi"@,
    ]
}

/// The greetings that `!yo` answers with.
pub fn responses() -> (r: Vec<String>)
    ensures
        item_texts(r@) == greetings(),
{
    let mut r: Vec<String> = Vec::new();
    r.push(String::from_str("yo"));
    r.push(String::from_str("hey"));
    r.push(String::from_str("hello"));
    r.push(String::from_str("hi"));
    r.push(String::from_str("what's up"));
    r.push(String::from_str("greetings"));
    r.push(String::from_str("salutations"));
    r.push(String::from_str("HAI"));
    r.push(String::from_str("Ello Gov'na"));
    r.push(String::from_str("Top of the morning to ya"));
    r.push(String::from_str("E kaaro"));
    r.push(String::from_str("Hola"));
    r.push(String::from_str("Bonjour"));
    r.push(String::from_str("Ciao"));
    r.push(String::from_str("Hallo"));
    r.push(String::from_str("Hej"));
    r.push(String::from_str("Aloha"));
    r.push(String::from_str("Namaste"));
    r.push(String::from_str("Konnichiwa"));
    r.push(String::from_str("Annyeonghaseyo"));
    r.push(String::from_str("Ni hao"));
    r.push(String::from_str("Salaam"));
    r.push(String::from_str("Shalom"));
    r.push(String::from_str("Sawubona"));
    r.push(String::from_str("Jambo"));
    r.push(String::from_str("Moin"));
    r.push(String::from_str("Yerrrr"));
    r.push(String::from_str("Wagwan"));
    r.push(String::from_str("Wassup"));
    r.push(String::from_str("Moi"));
    assert(item_texts(r@) =~= greetings());
    r
}

/// One of the greetings, drawn at random.
pub fn draw_greeting() -> (greeting: String)
    ensures
        exists|i: int| 0 <= i < greetings().len() && greeting@ == #[trigger] greetings()[i],
{
    let all = responses();
    match choose_item(&all) {
        Some(greeting) => {
            proof {
                let i = choose|i: int| 0 <= i < all.len() && all[i]@ == greeting@;
                assert(item_texts(all@)[i] == all[i]@);
            }
            greeting
        },
        None => {
            proof {
                assert(item_texts(all@).len() == all.len());
            }
            String::from_str("yo")
        },
    }
}

/// Handles `!yo`: replies with one of the greetings, drawn at random.
pub fn handle_yo_command() -> (out: Vec<Outgoing>)
    ensures
        out.len() == 1,
        out[0].reply,
        exists|i: int| 0 <= i < greetings().len() && out[0].text@ == #[trigger] greetings()[i],
{
    let greeting = draw_greeting();
    one(reply_to(greeting.as_str()))
}

/// Handles `!lurk`: notes that the sender only watches from `now` on.
pub fn handle_lurk_command(store: &mut Store, msg: &ChatMessage, now: i64) -> (out: Vec<Outgoing>)
    requires
        old(store)@.wf(),
    ensures
        final(store)@.wf(),
        final(store)@ == old(store)@.create_lurker(msg@.sender_name, msg@.sender_id, now as int),
        outbox(out@) == seq![reply_view("@ToluAfo We got a lurker over here!!!"@)],
{
    store.create_lurker(msg.sender_name.as_str(), msg.sender_id.as_str(), now);
    one(reply_to("@ToluAfo We got a lurker over here!!!"))
}

/// How each lurker is named in the list of lurkers.
pub open spec fn lurker_labels(lurkers: Seq<LurkerView>) -> Seq<Seq<char>> {
    lurkers.map_values(|l: LurkerView| "@"@ + l.username + " "@)
}

/// Handles `!lurkers`: lists who is lurking. The store is only read.
pub fn handle_lurkers_command(store: &Store) -> (out: Vec<Outgoing>)
    ensures
        outbox(out@) == seq![
            reply_view(
                "Lurkers:"@ + " "@ + list_text(
                    lurker_labels(store@.lurkers),
                    ItemSeparator::Dash,
                ),
            ),
        ],
{
    let lurkers = store.get_lurkers();
    let mut labels: Vec<String> = Vec::new();
    let mut i: usize = 0;
    while i < lurkers.len()
        invariant
            0 <= i <= lurkers.len(),
            lurkers@.map_values(|l: crate::models::Lurker| l@) == store@.lurkers,
            item_texts(labels@) =~= lurker_labels(store@.lurkers.take(i as int)),
        decreases lurkers.len() - i,
    {
        let mut label = String::from_str("@");
        label.append(lurkers[i].username.as_str());
        label.append(" ");
        let ghost before = item_texts(labels@);
        proof {
            assert(lurkers@.map_values(|l: crate::models::Lurker| l@)[i as int] == lurkers@[i as int]@);
        }
        labels.push(label);
        proof {
            assert(item_texts(labels@) =~= before.push(label@));
            assert(store@.lurkers.take(i + 1) =~= store@.lurkers.take(i as int).push(
                store@.lurkers[i as int],
            ));
        }
        i += 1;
    }
    proof {
        assert(store@.lurkers.take(i as int) =~= store@.lurkers);
    }
    one(reply_to(list_with_title("Lurkers:", &labels, ItemSeparator::Dash).as_str()))
}

/// What `!lurktime` answers: how long the first chatter of the sender's
/// name has lurked, or that they have not lurked yet.
pub open spec fn lurktime_text(s: StoreView, msg: ChatMessageView) -> Seq<char> {
    match s.chatter_named(msg.sender_name) {
        Some(i) => "@"@ + msg.sender_name + " you have lurked for "@ + decimal(
            s.chatters[i].lurk_time,
        ) + " seconds!"@,
        None => "You need to lurk first!"@,
    }
}

/// Handles `!lurktime`. The store is only read.
pub fn handle_lurktime_command(store: &Store, msg: &ChatMessage) -> (out: Vec<Outgoing>)
    ensures
        outbox(out@) == seq![reply_view(lurktime_text(store@, msg@))],
{
    match store.get_chatter_by_username(msg.sender_name.as_str()) {
        Some(chatter) => {
            let mut text = String::from_str("@");
            text.append(msg.sender_name.as_str());
            text.append(" you have lurked for ");
            text.append(decimal_string(chatter.lurk_time as i64).as_str());
            text.append(" seconds!");
            one(reply_to(text.as_str()))
        },
        None => one(reply_to("You need to lurk first!")),
    }
}

/// The commands that `!commands` lists.
pub open spec fn command_names() -> Seq<Seq<char>> {
    seq![
        "!gamble"@,
        "!yo"@,
        "!lurk"@,
        "!lurktime"@,
        "!lurkers"@,
        "!github"@,
        "!botrepo"@,
        "!listcategories"@,
        "!addquestion"@,
        "!addcategory"@,
        "!points"@,
        "!challenge"@,
        "!duel"@,
        "!accept"@,
        "!kda"@,
        "!ranking"@,
        "!top3"@,
        "!gift"@,
        "!setpoints"@,
        "!pool"@,
        "!selectPoolWinner"@,
    ]
}

/// Handles `!commands`: lists the commands.
pub fn handle_commands_command() -> (out: Vec<Outgoing>)
    ensures
        outbox(out@) == seq![
            reply_view(
                "Available commands:"@ + " "@ + list_text(command_names(), ItemSeparator::Comma),
            ),
        ],
{
    let mut commands: Vec<String> = Vec::new();
    commands.push(String::from_str("!gamble"));
    commands.push(String::from_str("!yo"));
    commands.push(String::from_str("!lurk"));
    commands.push(String::from_str("!lurktime"));
    commands.push(String::from_str("!lurkers"));
    commands.push(String::from_str("!github"));
    commands.push(String::from_str("!botrepo"));
    commands.push(String::from_str("!listcategories"));
    commands.push(String::from_str("!addquestion"));
    commands.push(String::from_str("!addcategory"));
    commands.push(String::from_str("!points"));
    commands.push(String::from_str("!challenge"));
    commands.push(String::from_str("!duel"));
    commands.push(String::from_str("!accept"));
    commands.push(String::from_str("!kda"));
    commands.push(String::from_str("!ranking"));
    commands.push(String::from_str("!top3"));
    commands.push(String::from_str("!gift"));
    commands.push(String::from_str("!setpoints"));
    commands.push(String::from_str("!pool"));
    commands.push(String::from_str("!selectPoolWinner"));
    assert(item_texts(commands@) =~= command_names());
    one(
        reply_to(list_with_title("Available commands:", &commands, ItemSeparator::Comma).as_str()),
    )
}

/// What `!kda` answers: the wins and losses of the first chatter of the
/// sender's name, or that there is no such chatter.
pub open spec fn kda_message(s: StoreView, msg: ChatMessageView) -> OutgoingView {
    match s.chatter_named(msg.sender_name) {
        Some(i) => reply_view(
            "@"@ + msg.sender_name + " has "@ + decimal(s.chatters[i].wins) + " wins and "@
                + decimal(s.chatters[i].losses) + " losses!"@,
        ),
        None => send_view(duel_err_text(msg.sender_name, "Chatter not found!"@)),
    }
}

/// Handles `!kda`. The store is only read.
pub fn handle_kda_command(store: &Store, msg: &ChatMessage) -> (out: Vec<Outgoing>)
    ensures
        outbox(out@) == seq![kda_message(store@, msg@)],
{
    let responder = msg.sender_name.as_str();
    match store.get_chatter_by_username(responder) {
        Some(chatter) => {
            let mut text = String::from_str("@");
            text.append(responder);
            text.append(" has ");
            text.append(decimal_string(chatter.wins as i64).as_str());
            text.append(" wins and ");
            text.append(decimal_string(chatter.losses as i64).as_str());
            text.append(" losses!");
            one(reply_to(text.as_str()))
        },
        None => one(send_duel_err(responder, "Chatter not found!")),
    }
}

/// How the duelist at place `place`, counted from zero, is named in the
/// list of the best.
pub open spec fn duelist_label(place: int, c: ChatterView) -> Seq<char> {
    decimal(place + 1) + ". "@ + c.username + " - "@ + decimal(c.wins) + " wins"@
}

/// The labels of the best duelists, best first.
pub open spec fn duelist_labels(best: Seq<ChatterView>) -> Seq<Seq<char>> {
    Seq::new(best.len(), |i: int| duelist_label(i, best[i]))
}

/// Handles `!topDuelists`: lists the three chatters with the most wins.
/// The store is only read.
pub fn handle_top_duelists_command(store: &Store) -> (out: Vec<Outgoing>)
    ensures
        outbox(out@) == seq![
            reply_view(
                "Top Duelists:"@ + " "@ + list_text(
                    duelist_labels(top_by_wins(store@.chatters, 3)),
                    ItemSeparator::GoldStar,
                ),
            ),
        ],
{
    let best = store.get_top_duelists();
    let ghost all = top_by_wins(store@.chatters, 3);
    let mut labels: Vec<String> = Vec::new();
    let mut i: usize = 0;
    while i < best.len()
        invariant
            0 <= i <= best.len() <= 3,
            best@.map_values(|c: crate::models::Chatter| c@) == all,
            item_texts(labels@) =~= duelist_labels(all).take(i as int),
        decreases best.len() - i,
    {
        proof {
            assert(best@.map_values(|c: crate::models::Chatter| c@)[i as int] == best@[i as int]@);
        }
        let mut label = decimal_string((i as i64) + 1);
        label.append(". ");
        label.append(best[i].username.as_str());
        label.append(" - ");
        label.append(decimal_string(best[i].wins as i64).as_str());
        label.append(" wins");
        let ghost before = item_texts(labels@);
        labels.push(label);
        proof {
            assert(item_texts(labels@) =~= before.push(label@));
            assert(duelist_labels(all).take(i + 1) =~= duelist_labels(all).take(i as int).push(
                duelist_label(i as int, all[i as int]),
            ));
        }
        i += 1;
    }
    proof {
        assert(duelist_labels(all).take(i as int) =~= duelist_labels(all));
    }
    one(reply_to(list_with_title("Top Duelists:", &labels, ItemSeparator::GoldStar).as_str()))
}

/// What `!ranking` answers: the sender's place by balance, or that the
/// sender is unknown.
pub open spec fn ranking_text(s: StoreView, msg: ChatMessageView) -> Seq<char> {
    match s.chatter_at(msg.sender_id) {
        Some(i) => "Your ranking is: "@ + decimal(
            if s.rank_at(i) <= i64::MAX {
                s.rank_at(i)
            } else {
                i64::MAX as int
            },
        ),
        None => "Chatter not found!"@,
    }
}

/// Handles `!ranking`. The store is only read.
pub fn handle_ranking_command(store: &Store, msg: &ChatMessage) -> (out: Vec<Outgoing>)
    ensures
        outbox(out@) == seq![reply_view(ranking_text(store@, msg@))],
{
    match store.get_ranking(msg.sender_id.as_str()) {
        Some(ranking) => {
            let mut reply = String::from_str("Your ranking is: ");
            reply.append(decimal_string(ranking).as_str());
            one(reply_to(reply.as_str()))
        },
        None => one(reply_to("Chatter not found!")),
    }
}

/// How each category is named in the list of categories.
pub open spec fn category_labels(categories: Seq<CategoryView>) -> Seq<Seq<char>> {
    categories.map_values(|c: CategoryView| decimal(c.id) + " - "@ + c.name)
}

/// Handles `!listcategories`: lists the categories with their numbers.
/// The store is only read.
pub fn handle_listcategories_command(store: &Store) -> (out: Vec<Outgoing>)
    ensures
        outbox(out@) == seq![
            reply_view(
                "Categories:"@ + " "@ + list_text(
                    category_labels(store@.categories),
                    ItemSeparator::Dash,
                ),
            ),
        ],
{
    let categories = store.get_categories();
    let mut labels: Vec<String> = Vec::new();
    let mut i: usize = 0;
    while i < categories.len()
        invariant
            0 <= i <= categories.len(),
            categories@.map_values(|c: crate::models::Category| c@) == store@.categories,
            item_texts(labels@) =~= category_labels(store@.categories.take(i as int)),
        decreases categories.len() - i,
    {
        proof {
            assert(categories@.map_values(|c: crate::models::Category| c@)[i as int]
                == categories@[i as int]@);
        }
        let mut label = decimal_string(categories[i].id as i64);
        label.append(" - ");
        label.append(categories[i].name.as_str());
        let ghost before = item_texts(labels@);
        labels.push(label);
        proof {
            assert(item_texts(labels@) =~= before.push(label@));
            assert(store@.categories.take(i + 1) =~= store@.categories.take(i as int).push(
                store@.categories[i as int],
            ));
        }
        i += 1;
    }
    proof {
        assert(store@.categories.take(i as int) =~= store@.categories);
    }
    one(reply_to(list_with_title("Categories:", &labels, ItemSeparator::Dash).as_str()))
}

/// Handles `!github`: says where the streamer's projects are.
pub fn handle_github_command() -> (out: Vec<Outgoing>)
    ensures
        outbox(out@) == seq![
            reply_view("You can check out ToluAfo's projects at https://github.com/tolu-afo"@),
        ],
{
    one(reply_to("You can check out ToluAfo's projects at https://github.com/tolu-afo"))
}

/// Handles `!botrepo`: says where the bot's source is.
pub fn handle_botrepo_command() -> (out: Vec<Outgoing>)
    ensures
        outbox(out@) == seq![
            reply_view("You can check out my source code at https://github.com/tolu-afo/TTB"@),
        ],
{
    one(reply_to("You can check out my source code at https://github.com/tolu-afo/TTB"))
}

/// Handles `!contribute`: says where to contribute.
pub fn handle_contribute_command() -> (out: Vec<Outgoing>)
    ensures
        outbox(out@) == seq![
            reply_view(
                "You can contribute to my Code by taking on one of the issues listed here: https://github.com/tolu-afo/TTB/issues"@,
            ),
        ],
{
    one(
        reply_to(
            "You can contribute to my Code by taking on one of the issues listed here: https://github.com/tolu-afo/TTB/issues",
        ),
    )
}

} // verus!

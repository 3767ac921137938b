//! A simple vertical menu of labelled actions.
use vstd::prelude::*;

use crate::command::KeyInput;
use crate::command::Screen;
use crate::icons::{ANVIL, CROSSED_SWORDS, DOUBLE_ARROW_UP, HOUSE, OPEN_DOOR, PERSON, RETURN_ARROW, SHIRT, STORE};
use crate::text::push_char;
use crate::text::push_str;
use crate::selection::current_row;
use crate::selection::Selection;

verus! {

/// A menu entry: its label and what choosing it does (the action is held,
/// and run by the caller of `MenuComponent::on`).
pub struct MenuItem<A> {
    pub label: String,
    pub action: A,
}

/// A list of entries with one highlighted.
pub struct MenuComponent<A> {
    pub list_state: Selection,
    pub items: Vec<MenuItem<A>>,
}

/// Row above `cur` among `count` rows, from the top to the bottom.
pub open spec fn wrap_up(cur: nat, count: nat) -> nat {
    if cur == 0 {
        (count - 1) as nat
    } else {
        (cur - 1) as nat
    }
}

/// Row below `cur` among `count` rows, from the bottom to the top.
pub open spec fn wrap_down(cur: nat, count: nat) -> nat {
    ((cur + 1) as int % (count as int)) as nat
}

impl<A> MenuComponent<A> {
    /// A menu of `items` with the first one highlighted.
    pub fn new(items: Vec<MenuItem<A>>) -> (m: Self)
        ensures
            m.items == items,
            m.list_state.selected == Some(0usize),
    {
        MenuComponent { list_state: Selection::first(), items }
    }

    /// Handles a key: the arrows move the highlight (wrapping), Enter
    /// returns the highlighted entry, whose action the caller runs.
    pub fn on(&mut self, key: KeyInput) -> (chosen: Option<usize>)
        requires
            key == KeyInput::Up && current_row(old(self).list_state) == 0 ==> old(
                self,
            ).items@.len() > 0,
            key == KeyInput::Down ==> old(self).items@.len() > 0,
            key == KeyInput::Down ==> current_row(old(self).list_state) < usize::MAX,
            key == KeyInput::Enter ==> current_row(old(self).list_state) < old(self).items@.len(),
        ensures
            final(self).items == old(self).items,
            key == KeyInput::Up ==> final(self).list_state.selected == Some(
                wrap_up(current_row(old(self).list_state), old(self).items@.len()) as usize,
            ),
            key == KeyInput::Down ==> final(self).list_state.selected == Some(
                wrap_down(current_row(old(self).list_state), old(self).items@.len()) as usize,
            ),
            key != KeyInput::Up && key != KeyInput::Down ==> final(self).list_state == old(
                self,
            ).list_state,
            chosen == (if key == KeyInput::Enter {
                Some(current_row(old(self).list_state) as usize)
            } else {
                None
            }),
    {
        match key {
            KeyInput::Up => {
                let current = self.list_state.current();
                let new_idx = if current == 0 {
                    self.items.len() - 1
                } else {
                    current - 1
                };
                self.list_state.select(Some(new_idx));
                None
            },
            KeyInput::Down => {
                let current = self.list_state.current();
                let new_idx = (current + 1) % self.items.len();
                self.list_state.select(Some(new_idx));
                None
            },
            KeyInput::Enter => Some(self.list_state.current()),
            _ => None,
        }
    }
}

/// `icon`, a space, then `text`: how menu entries are labelled.
pub open spec fn labelled(icon: char, text: Seq<char>) -> Seq<char> {
    seq![icon, ' '] + text
}

fn icon_label(icon: char, text: &str) -> (l: String)
    ensures
        l@ == labelled(icon, text@),
{
    let mut l = String::new();
    push_char(&mut l, icon);
    push_char(&mut l, ' ');
    push_str(&mut l, text);
    assert(l@ =~= labelled(icon, text@));
    l
}

/// A menu of one entry, `Back`, that leads to `back_screen`.
pub fn back_button(back_screen: Screen) -> (m: MenuComponent<Screen>)
    ensures
        m.items@.len() == 1,
        m.items@[0].label@ == seq![RETURN_ARROW, ' ', 'B', 'a', 'c', 'k'],
        m.items@[0].action == back_screen,
        m.list_state.selected == Some(0usize),
{
    let label = icon_label(RETURN_ARROW, "Back");
    proof {
        reveal_strlit("Back");
    }
    let mut items: Vec<MenuItem<Screen>> = Vec::new();
    items.push(MenuItem { label, action: back_screen });
    MenuComponent::new(items)
}

/// The main menu: Town, Profile and Quit, each after its icon, leading to
/// the screen of that name.
pub fn main_menu() -> (m: MenuComponent<Screen>)
    ensures
        m.items@.len() == 3,
        m.items@[0].label@ == seq![HOUSE, ' ', 'T', 'o', 'w', 'n'],
        m.items@[0].action == Screen::Town,
        m.items@[1].label@ == seq![PERSON, ' ', 'P', 'r', 'o', 'f', 'i', 'l', 'e'],
        m.items@[1].action == Screen::Profile,
        m.items@[2].label@ == seq![OPEN_DOOR, ' ', 'Q', 'u', 'i', 't'],
        m.items@[2].action == Screen::Quit,
        m.list_state.selected == Some(0usize),
{
    proof {
        reveal_strlit("Town");
        reveal_strlit("Profile");
        reveal_strlit("Quit");
    }
    let mut items: Vec<MenuItem<Screen>> = Vec::new();
    items.push(MenuItem { label: icon_label(HOUSE, "Town"), action: Screen::Town });
    items.push(MenuItem { label: icon_label(PERSON, "Profile"), action: Screen::Profile });
    items.push(MenuItem { label: icon_label(OPEN_DOOR, "Quit"), action: Screen::Quit });
    MenuComponent::new(items)
}

/// What an entry of the game menu does.
#[derive(Debug, Clone, Copy, PartialEq, Eq, Structural)]
pub enum GameMenuAction {
    /// Start a fight against a goblin.
    FightGoblin,
    /// Go to a screen.
    GoTo(Screen),
}

/// The game menu: Fight, Store, Profile, Equipment, Blacksmith and Quit.
pub fn game_menu() -> (m: MenuComponent<GameMenuAction>)
    ensures
        m.items@.len() == 6,
        m.items@[0].label@ == labelled(CROSSED_SWORDS, seq!['F', 'i', 'g', 'h', 't']),
        m.items@[0].action == GameMenuAction::FightGoblin,
        m.items@[1].label@ == labelled(STORE, seq!['S', 't', 'o', 'r', 'e']),
        m.items@[1].action == GameMenuAction::GoTo(Screen::Store),
        m.items@[2].label@ == labelled(PERSON, seq!['P', 'r', 'o', 'f', 'i', 'l', 'e']),
        m.items@[2].action == GameMenuAction::GoTo(Screen::Profile),
        m.items@[3].label@ == labelled(SHIRT, seq!['E', 'q', 'u', 'i', 'p', 'm', 'e', 'n', 't']),
        m.items@[3].action == GameMenuAction::GoTo(Screen::Equipment),
        m.items@[4].label@ == labelled(ANVIL, seq!['B', 'l', 'a', 'c', 'k', 's', 'm', 'i', 't', 'h']),
        m.items@[4].action == GameMenuAction::GoTo(Screen::Blacksmith),
        m.items@[5].label@ == labelled(OPEN_DOOR, seq!['Q', 'u', 'i', 't']),
        m.items@[5].action == GameMenuAction::GoTo(Screen::Quit),
        m.list_state.selected == Some(0usize),
{
    proof {
        reveal_strlit("Fight");
        reveal_strlit("Store");
        reveal_strlit("Profile");
        reveal_strlit("Equipment");
        reveal_strlit("Blacksmith");
        reveal_strlit("Quit");
    }
    let mut items: Vec<MenuItem<GameMenuAction>> = Vec::new();
    items.push(MenuItem { label: icon_label(CROSSED_SWORDS, "Fight"), action: GameMenuAction::FightGoblin });
    items.push(MenuItem { label: icon_label(STORE, "Store"), action: GameMenuAction::GoTo(Screen::Store) });
    items.push(MenuItem { label: icon_label(PERSON, "Profile"), action: GameMenuAction::GoTo(Screen::Profile) });
    items.push(MenuItem { label: icon_label(SHIRT, "Equipment"), action: GameMenuAction::GoTo(Screen::Equipment) });
    items.push(MenuItem { label: icon_label(ANVIL, "Blacksmith"), action: GameMenuAction::GoTo(Screen::Blacksmith) });
    items.push(MenuItem { label: icon_label(OPEN_DOOR, "Quit"), action: GameMenuAction::GoTo(Screen::Quit) });
    MenuComponent::new(items)
}

/// The blacksmith's menu: "Upgrade Items" leads to the list of items,
/// "Back" to the main menu.
pub fn blacksmith_menu() -> (m: MenuComponent<Screen>)
    ensures
        m.items@.len() == 2,
        m.items@[0].label@ == labelled(
            DOUBLE_ARROW_UP,
            seq!['U', 'p', 'g', 'r', 'a', 'd', 'e', ' ', 'I', 't', 'e', 'm', 's'],
        ),
        m.items@[0].action == Screen::BlacksmithItems,
        m.items@[1].label@ == labelled(RETURN_ARROW, seq!['B', 'a', 'c', 'k']),
        m.items@[1].action == Screen::Menu,
        m.list_state.selected == Some(0usize),
{
    proof {
        reveal_strlit("Upgrade Items");
        reveal_strlit("Back");
    }
    let mut items: Vec<MenuItem<Screen>> = Vec::new();
    items.push(MenuItem { label: icon_label(DOUBLE_ARROW_UP, "Upgrade Items"), action: Screen::BlacksmithItems });
    items.push(MenuItem { label: icon_label(RETURN_ARROW, "Back"), action: Screen::Menu });
    MenuComponent::new(items)
}

/// Law of the wrapping menu: from an entry, one move up then one move down
/// (or down then up) comes back to it, and both stay among the entries.
pub proof fn lemma_wrap_inverse(cur: nat, count: nat)
    requires
        cur < count,
    ensures
        wrap_up(cur, count) < count,
        wrap_down(cur, count) < count,
        wrap_down(wrap_up(cur, count), count) == cur,
        wrap_up(wrap_down(cur, count), count) == cur,
{
    let c = count as int;
    if cur + 1 < count {
        vstd::arithmetic::div_mod::lemma_small_mod((cur + 1) as nat, count);
    } else {
        vstd::arithmetic::div_mod::lemma_mod_self_0(c);
    }
    if cur == 0 {
        vstd::arithmetic::div_mod::lemma_mod_self_0(c);
    } else {
        vstd::arithmetic::div_mod::lemma_small_mod(cur, count);
    }
}

} // verus!

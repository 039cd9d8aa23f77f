//! Turn-based combat: the 2-by-2 action menu, the enemy table, and
//! the fight action. Directional keys cycle the selection by one
//! column or two rows, wrapped modulo four; confirm triggers the
//! selected action; a fight takes one health point and wins the
//! battle at zero.

use vstd::prelude::*;

use crate::graphics::ColorRgb;
use crate::rng::rand_in_range;
use crate::text::{health_label, health_text};
use crate::{GameState, TILE_UNITS};

verus! {

/// The four combat actions, laid out on a 2-by-2 grid.
#[derive(Clone, Copy, Debug, PartialEq, Eq, Hash, Structural)]
pub enum CombatMenuType {
    Fight,
    Swap,
    Item,
    Run,
}

/// The position of an action in the cycling order.
pub open spec fn menu_index(m: CombatMenuType) -> int {
    match m {
        CombatMenuType::Fight => 0,
        CombatMenuType::Swap => 1,
        CombatMenuType::Item => 2,
        CombatMenuType::Run => 3,
    }
}

/// The action at a position of the cycling order.
pub open spec fn menu_at(i: int) -> CombatMenuType {
    if i == 0 {
        CombatMenuType::Fight
    } else if i == 1 {
        CombatMenuType::Swap
    } else if i == 2 {
        CombatMenuType::Item
    } else {
        CombatMenuType::Run
    }
}

/// The combat menu: which action is selected, whether it reacts to
/// input, and whether it sits on screen.
#[derive(Clone, Copy, Debug, PartialEq, Eq, Structural)]
pub struct CombatMenu {
    pub active: bool,
    pub onscreen: bool,
    pub selected: CombatMenuType,
}

/// The keys read by the combat menu, as just-pressed flags.
#[derive(Clone, Copy, Debug, PartialEq, Eq, Structural)]
pub struct MenuKeys {
    pub confirm: bool,
    pub escape: bool,
    pub left: bool,
    pub right: bool,
    pub up: bool,
    pub down: bool,
}

/// The net selection movement of one frame: one step per horizontal
/// key, two per vertical key.
pub open spec fn selection_delta(k: MenuKeys) -> int {
    (if k.right {
        1int
    } else {
        0int
    }) - (if k.left {
        1int
    } else {
        0int
    }) + (if k.up {
        2int
    } else {
        0int
    }) - (if k.down {
        2int
    } else {
        0int
    })
}

/// The selection after one frame of keys, wrapped modulo four.
pub open spec fn next_selection(sel: CombatMenuType, k: MenuKeys) -> CombatMenuType {
    menu_at((menu_index(sel) + selection_delta(k) + 4) % 4)
}

/// One frame of the combat menu. While inactive, only escape brings
/// it back. While active, confirm triggers the selected action:
/// Fight emits a fight, Swap and Item slide the menu off screen and
/// deactivate it, Run ends the battle; afterwards the directional
/// keys still move the selection.
pub open spec fn menu_step_result(m: CombatMenu, k: MenuKeys, state: GameState) -> (
    CombatMenu,
    GameState,
    bool,
) {
    if !m.active {
        if k.escape {
            (CombatMenu { active: true, onscreen: true, selected: m.selected }, state, false)
        } else {
            (m, state, false)
        }
    } else {
        let fight = k.confirm && m.selected is Fight;
        let hide = k.confirm && (m.selected is Swap || m.selected is Item);
        let run = k.confirm && m.selected is Run;
        (
            CombatMenu {
                active: !hide,
                onscreen: !hide && m.onscreen,
                selected: next_selection(m.selected, k),
            },
            if run {
                GameState::Overworld
            } else {
                state
            },
            fight,
        )
    }
}

/// Drive the combat menu for one frame of input.
pub fn combat_menu_input(menu: &mut CombatMenu, keys: MenuKeys, state: &mut GameState) -> (fight:
    bool)
    ensures
        ({
            let (m1, s1, f) = menu_step_result(*old(menu), keys, *old(state));
            *final(menu) == m1 && *final(state) == s1 && fight == f
        }),
{
    if !menu.active {
        if keys.escape {
            menu.onscreen = true;
            menu.active = true;
        }
        return false;
    }
    let mut fight = false;
    if keys.confirm {
        match menu.selected {
            CombatMenuType::Fight => {
                fight = true;
            },
            CombatMenuType::Item => {
                menu.onscreen = false;
                menu.active = false;
            },
            CombatMenuType::Swap => {
                menu.onscreen = false;
                menu.active = false;
            },
            CombatMenuType::Run => {
                *state = GameState::Overworld;
            },
        }
    }
    let mut to_select: i32 = match menu.selected {
        CombatMenuType::Fight => 0,
        CombatMenuType::Swap => 1,
        CombatMenuType::Item => 2,
        CombatMenuType::Run => 3,
    };
    if keys.right {
        to_select = to_select + 1;
    }
    if keys.left {
        to_select = to_select - 1;
    }
    if keys.up {
        to_select = to_select + 2;
    }
    if keys.down {
        to_select = to_select - 2;
    }
    to_select = (to_select + 4) % 4;
    menu.selected = if to_select == 0 {
        CombatMenuType::Fight
    } else if to_select == 1 {
        CombatMenuType::Swap
    } else if to_select == 2 {
        CombatMenuType::Item
    } else {
        CombatMenuType::Run
    };
    fight
}

/// Four steps to the right return the selection to where it started,
/// whichever action was selected: the selection order is closed
/// modulo four.
pub proof fn lemma_menu_right_four_cycle(m: CombatMenu, k: MenuKeys, state: GameState)
    requires
        m.active,
        !k.confirm,
        !k.escape,
        k.right,
        !k.left,
        !k.up,
        !k.down,
    ensures
        ({
            let (m1, s1, _) = menu_step_result(m, k, state);
            let (m2, s2, _) = menu_step_result(m1, k, s1);
            let (m3, s3, _) = menu_step_result(m2, k, s2);
            let (m4, _, _) = menu_step_result(m3, k, s3);
            m4.selected == m.selected
        }),
{
}

/// Two steps up return the selection to where it started: two plus
/// two is zero modulo four.
pub proof fn lemma_menu_up_twice_cycle(m: CombatMenu, k: MenuKeys, state: GameState)
    requires
        m.active,
        !k.confirm,
        !k.escape,
        !k.right,
        !k.left,
        k.up,
        !k.down,
    ensures
        ({
            let (m1, s1, _) = menu_step_result(m, k, state);
            let (m2, _, _) = menu_step_result(m1, k, s1);
            m2.selected == m.selected
        }),
{
}

// ---------------------------------------------------------------
// Enemies
// ---------------------------------------------------------------

/// The five enemy species.
#[derive(Clone, Copy, Debug, PartialEq, Eq, Structural)]
pub enum EnemyType {
    Bat,
    Zombie,
    Spectre,
    Demon,
    Giant,
}

/// One combat opponent: its species, the glyph and colour it is drawn
/// with, its remaining health and the experience it grants.
#[derive(Clone, Copy, Debug, PartialEq, Eq, Structural)]
pub struct Enemy {
    pub enemy_type: EnemyType,
    pub sprite_index: usize,
    pub color: ColorRgb,
    pub health: i64,
    pub exp: i64,
}

/// The fixed enemy table, equally likely entries rolled by index.
pub open spec fn enemy_table(i: int) -> Enemy {
    if i == 0 {
        Enemy {
            enemy_type: EnemyType::Bat,
            sprite_index: 98,  // 'b'
            color: ColorRgb { r: 600, g: 600, b: 600 },
            health: 3,
            exp: 3,
        }
    } else if i == 1 {
        Enemy {
            enemy_type: EnemyType::Zombie,
            sprite_index: 90,  // 'Z'
            color: ColorRgb { r: 600, g: 1000, b: 600 },
            health: 5,
            exp: 7,
        }
    } else if i == 2 {
        Enemy {
            enemy_type: EnemyType::Spectre,
            sprite_index: 103,  // 'g'
            color: ColorRgb { r: 900, g: 900, b: 900 },
            health: 6,
            exp: 7,
        }
    } else if i == 3 {
        Enemy {
            enemy_type: EnemyType::Demon,
            sprite_index: 68,  // 'D'
            color: ColorRgb { r: 900, g: 200, b: 200 },
            health: 10,
            exp: 15,
        }
    } else {
        Enemy {
            enemy_type: EnemyType::Giant,
            sprite_index: 71,  // 'G'
            color: ColorRgb { r: 100, g: 500, b: 100 },
            health: 20,
            exp: 45,
        }
    }
}

/// The enemy a roll of the five-sided die produces.
pub fn enemy_of_roll(roll: u32) -> (e: Enemy)
    requires
        roll < 5,
    ensures
        e == enemy_table(roll as int),
{
    if roll == 0 {
        Enemy {
            enemy_type: EnemyType::Bat,
            sprite_index: 98,
            color: ColorRgb { r: 600, g: 600, b: 600 },
            health: 3,
            exp: 3,
        }
    } else if roll == 1 {
        Enemy {
            enemy_type: EnemyType::Zombie,
            sprite_index: 90,
            color: ColorRgb { r: 600, g: 1000, b: 600 },
            health: 5,
            exp: 7,
        }
    } else if roll == 2 {
        Enemy {
            enemy_type: EnemyType::Spectre,
            sprite_index: 103,
            color: ColorRgb { r: 900, g: 900, b: 900 },
            health: 6,
            exp: 7,
        }
    } else if roll == 3 {
        Enemy {
            enemy_type: EnemyType::Demon,
            sprite_index: 68,
            color: ColorRgb { r: 900, g: 200, b: 200 },
            health: 10,
            exp: 15,
        }
    } else {
        Enemy {
            enemy_type: EnemyType::Giant,
            sprite_index: 71,
            color: ColorRgb { r: 100, g: 500, b: 100 },
            health: 20,
            exp: 45,
        }
    }
}

/// Roll a random enemy from the table, each entry equally likely.
pub fn get_random_enemy() -> (e: Enemy)
    ensures
        exists|i: int| 0 <= i < 5 && e == enemy_table(i),
{
    let roll = rand_in_range(0, 5);
    let e = enemy_of_roll(roll);
    proof {
        assert(e == enemy_table(roll as int));
    }
    e
}

/// Spawn the combat opponent: a random enemy from the table together
/// with its initial health read-out.
pub fn create_enemy() -> (r: (Enemy, Vec<u8>))
    ensures
        exists|i: int| 0 <= i < 5 && r.0 == enemy_table(i),
        r.1@ == health_label(r.0.health as int),
{
    let e = get_random_enemy();
    let text = health_text(e.health);
    (e, text)
}

/// One confirmed fight: the enemy loses one health point, the health
/// read-out updates, and at zero or below the battle is won and the
/// game returns to the overworld.
pub fn fight(enemy: &mut Enemy, state: &mut GameState) -> (health_readout: Vec<u8>)
    requires
        old(enemy).health > i64::MIN,
    ensures
        final(enemy).health == old(enemy).health - 1,
        *final(enemy) == (Enemy { health: final(enemy).health, ..*old(enemy) }),
        *final(state) == (if old(enemy).health - 1 <= 0 {
            GameState::Overworld
        } else {
            *old(state)
        }),
        health_readout@ == health_label(old(enemy).health - 1),
{
    enemy.health = enemy.health - 1;
    let readout = health_text(enemy.health);
    if enemy.health <= 0 {
        *state = GameState::Overworld;
    }
    readout
}

/// The tint a menu button shows: red while selected, white otherwise.
pub fn highlight_color(id: CombatMenuType, selected: CombatMenuType) -> (c: ColorRgb)
    ensures
        c == (if id == selected {
            ColorRgb { r: 1000, g: 0, b: 0 }
        } else {
            ColorRgb { r: 1000, g: 1000, b: 1000 }
        }),
{
    if id == selected {
        ColorRgb { r: 1000, g: 0, b: 0 }
    } else {
        ColorRgb { r: 1000, g: 1000, b: 1000 }
    }
}

// ---------------------------------------------------------------
// Menu layout
// ---------------------------------------------------------------

/// One button of the combat menu: its action, the centre and size of
/// its panel in world units, its label and the label's x offset from
/// the centre.
#[derive(Debug)]
pub struct CombatButton {
    pub id: CombatMenuType,
    pub x: i32,
    pub y: i32,
    pub width: i32,
    pub height: i32,
    pub label: Vec<u8>,
    pub text_dx: i32,
}

/// Build one menu button: a panel of the given size at the given
/// centre, with its label shifted left so it starts three tiles
/// before the panel's right half ends.
pub fn create_combat_button(
    id: CombatMenuType,
    x: i32,
    y: i32,
    width: i32,
    height: i32,
    label: Vec<u8>,
) -> (b: CombatButton)
    requires
        2 * TILE_UNITS <= width <= 1_000_000,
    ensures
        b.id == id,
        b.x == x,
        b.y == y,
        b.width == width,
        b.height == height,
        b.label == label,
        b.text_dx == (if width >= 3 * TILE_UNITS {
            -((width - 3 * TILE_UNITS) / 2)
        } else {
            (3 * TILE_UNITS - width) / 2
        }),
{
    let text_dx: i32 = if width >= 3 * TILE_UNITS {
        -((width - 3 * TILE_UNITS) / 2)
    } else {
        (3 * TILE_UNITS - width) / 2
    };
    CombatButton { id, x, y, width, height, label, text_dx }
}

/// Lay out the four combat buttons in a 2-by-2 grid anchored to the
/// bottom-right screen corner, given where the right screen edge is
/// in world units. Each button is seven tiles wide and three tall.
pub fn create_combat_menu(screen_right: i32) -> (r: Vec<CombatButton>)
    requires
        -1_000_000 <= screen_right <= 1_000_000,
    ensures
        r@.len() == 4,
        r@[0].id is Run && r@[0].x == screen_right - 3500 && r@[0].y == -8500,
        r@[1].id is Item && r@[1].x == screen_right - 10500 && r@[1].y == -8500,
        r@[2].id is Swap && r@[2].x == screen_right - 3500 && r@[2].y == -5500,
        r@[3].id is Fight && r@[3].x == screen_right - 10500 && r@[3].y == -5500,
        forall|i: int|
            0 <= i < 4 ==> (#[trigger] r@[i]).width == 7 * TILE_UNITS && r@[i].height == 3
                * TILE_UNITS && r@[i].text_dx == -2000,
        r@[0].label@ == seq![82u8, 117, 110],
        r@[1].label@ == seq![73u8, 116, 101, 109],
        r@[2].label@ == seq![83u8, 119, 97, 112],
        r@[3].label@ == seq![70u8, 105, 103, 104, 116],
{
    let box_width: i32 = 7 * TILE_UNITS;
    let box_height: i32 = 3 * TILE_UNITS;
    // the camera shows ten tiles above and ten below the centre, so
    // the bottom screen edge sits ten tiles down
    let bottom_offset: i32 = -10 * TILE_UNITS + box_height / 2;
    let right_offset: i32 = screen_right - box_width / 2;

    let mut run_label: Vec<u8> = Vec::new();
    run_label.push(82);  // 'R'
    run_label.push(117);  // 'u'
    run_label.push(110);  // 'n'
    let run = create_combat_button(
        CombatMenuType::Run,
        right_offset,
        bottom_offset,
        box_width,
        box_height,
        run_label,
    );

    let mut item_label: Vec<u8> = Vec::new();
    item_label.push(73);  // 'I'
    item_label.push(116);  // 't'
    item_label.push(101);  // 'e'
    item_label.push(109);  // 'm'
    let item = create_combat_button(
        CombatMenuType::Item,
        right_offset - box_width,
        bottom_offset,
        box_width,
        box_height,
        item_label,
    );

    let mut swap_label: Vec<u8> = Vec::new();
    swap_label.push(83);  // 'S'
    swap_label.push(119);  // 'w'
    swap_label.push(97);  // 'a'
    swap_label.push(112);  // 'p'
    let swap = create_combat_button(
        CombatMenuType::Swap,
        right_offset,
        bottom_offset + box_height,
        box_width,
        box_height,
        swap_label,
    );

    let mut fight_label: Vec<u8> = Vec::new();
    fight_label.push(70);  // 'F'
    fight_label.push(105);  // 'i'
    fight_label.push(103);  // 'g'
    fight_label.push(104);  // 'h'
    fight_label.push(116);  // 't'
    let fight_button = create_combat_button(
        CombatMenuType::Fight,
        right_offset - box_width,
        bottom_offset + box_height,
        box_width,
        box_height,
        fight_label,
    );

    let mut r: Vec<CombatButton> = Vec::new();
    r.push(run);
    r.push(item);
    r.push(swap);
    r.push(fight_button);
    assert(r@[0].label@ =~= seq![82u8, 117, 110]);
    assert(r@[1].label@ =~= seq![73u8, 116, 101, 109]);
    assert(r@[2].label@ =~= seq![83u8, 119, 97, 112]);
    assert(r@[3].label@ =~= seq![70u8, 105, 103, 104, 116]);
    r
}

/// Centre the camera on the world origin for the combat scene.
pub fn center_camera(cam: &mut crate::player::Camera)
    ensures
        final(cam).x == 0,
        final(cam).y == 0,
{
    cam.x = 0;
    cam.y = 0;
}

/// A fresh combat menu: on screen, reacting to input, Fight selected.
pub fn new_combat_menu() -> (m: CombatMenu)
    ensures
        m == (CombatMenu { active: true, onscreen: true, selected: CombatMenuType::Fight }),
{
    CombatMenu { active: true, onscreen: true, selected: CombatMenuType::Fight }
}

} // verus!

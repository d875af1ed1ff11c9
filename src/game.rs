use vstd::prelude::*;

use std::sync::mpsc::{Receiver, Sender};

use crate::error::GameError;
use crate::game_rules::GameRules;
use crate::game_stage::GameStage;
use crate::player::Player;
use crate::playmap::{bit_set, lemma_intersection_cells, Playmap};
use crate::point::Point;
use crate::ship::Ship;

verus! {

/// Declares std::sync::mpsc::Sender, the end on which a match wakes a seat;
/// nothing is assumed of its contents.
#[verifier::external_type_specification]
#[verifier::external_body]
#[verifier::reject_recursive_types(T)]
pub struct ExSender<T>(Sender<T>);

/// Declares std::sync::mpsc::Receiver, the end that a seat is handed when it
/// connects; nothing is assumed of its contents.
#[verifier::external_type_specification]
#[verifier::external_body]
#[verifier::reject_recursive_types(T)]
pub struct ExReceiver<T>(Receiver<T>);

/// Relies on std::sync::mpsc::channel: a fresh channel, returned as its
/// sending and its receiving end.
#[verifier::external_body]
fn open_channel() -> (Sender<()>, Receiver<()>) {
    std::sync::mpsc::channel()
}

/// Relies on Sender::send: queues one wake signal without blocking; it fails,
/// returning false, only when the receiving end is gone.
#[verifier::external_body]
fn wake(sender: &Sender<()>) -> (delivered: bool) {
    sender.send(()).is_ok()
}

/// A match between two seats. Each seat is named by the identifier it was
/// given when it connected; seat A is filled first.
pub struct Game {
    pub rules: GameRules,
    pub stage: GameStage,
    pub player_a: Player,
    pub player_b: Player,
    pub connection_count: u8,
    pub connection_a: Option<u8>,
    pub connection_b: Option<u8>,
    pub sender_a: Option<Sender<()>>,
    pub sender_b: Option<Sender<()>>,
}

/// What one seat may see of a match: its own fleet, the shots fired at it,
/// the shots it has fired, and which of those found a vessel.
pub struct StateSnapshot {
    pub my_ships: Playmap,
    pub my_marks: Playmap,
    pub enemy_marks: Playmap,
    pub enemy_losses: Playmap,
}

/// The two seats of a match from the point of view of one of them.
struct Players {
    my_id: u8,
    enemy_id: u8,
    me_is_a: bool,
}

impl Game {
    pub open spec fn both_seated(self) -> bool {
        self.connection_a is Some && self.connection_b is Some
    }

    /// Whether `id` names a live seat.
    pub open spec fn seated(self, id: u8) -> bool {
        self.connection_a == Some(id) || self.connection_b == Some(id)
    }

    /// Whether `id` names a live seat facing another live seat.
    pub open spec fn paired(self, id: u8) -> bool {
        self.seated(id) && self.both_seated()
    }

    pub open spec fn stage_seat_live(self) -> bool {
        match self.stage {
            GameStage::Waiting => true,
            GameStage::PlayerShips(who) => match who {
                Some(id) => self.seated(id),
                None => true,
            },
            GameStage::PlayerShoots(id) => self.seated(id),
            GameStage::PlayerWins(id) => self.seated(id),
        }
    }

    pub open spec fn id_ok(self, c: Option<u8>) -> bool {
        match c {
            Some(id) => 1 <= id <= self.connection_count,
            None => true,
        }
    }

    /// The invariant of a match: seat B is taken only with seat A, the two
    /// identifiers differ and were handed out, play goes on exactly while both
    /// seats are taken, and the stage names live seats only.
    pub open spec fn wf(self) -> bool {
        &&& self.connection_b is Some ==> self.connection_a is Some
        &&& self.id_ok(self.connection_a)
        &&& self.id_ok(self.connection_b)
        &&& self.both_seated() ==> self.connection_a != self.connection_b
        &&& (self.stage == GameStage::Waiting) == !self.both_seated()
        &&& self.stage_seat_live()
    }

    /// The fleet of the seat `id`.
    pub open spec fn fleet(self, id: u8) -> Player {
        if self.connection_a == Some(id) {
            self.player_a
        } else {
            self.player_b
        }
    }

    /// The fleet facing the seat `id`.
    pub open spec fn enemy(self, id: u8) -> Player {
        if self.connection_a == Some(id) {
            self.player_b
        } else {
            self.player_a
        }
    }

    pub open spec fn seat_id(c: Option<u8>) -> u8 {
        match c {
            Some(id) => id,
            None => 0,
        }
    }

    /// The identifier of the seat facing `id`.
    pub open spec fn enemy_id(self, id: u8) -> u8 {
        if self.connection_a == Some(id) {
            Game::seat_id(self.connection_b)
        } else {
            Game::seat_id(self.connection_a)
        }
    }

    /// The rules and the seats are those of `other`.
    pub open spec fn keeps_seats(self, other: Game) -> bool {
        &&& self.rules == other.rules
        &&& self.connection_count == other.connection_count
        &&& self.connection_a == other.connection_a
        &&& self.connection_b == other.connection_b
    }

    /// The stage after the seat `id` has placed a vessel and its fleet is `me`.
    pub open spec fn stage_after_place(self, id: u8, me: Player) -> GameStage {
        if self.rules.spec_available(me) {
            self.stage
        } else if self.stage == GameStage::PlayerShips(None) {
            GameStage::PlayerShips(Some(self.enemy_id(id)))
        } else {
            GameStage::PlayerShoots(Game::seat_id(self.connection_a))
        }
    }

    /// What placing `ship` at `point` for the seat `id` leads to: its new
    /// fleet and the new stage, or the error.
    pub open spec fn spec_place_outcome(self, id: u8, ship: Ship, point: Point) -> Result<
        (Player, GameStage),
        GameError,
    > {
        if !(self.stage == GameStage::PlayerShips(None) || self.stage == GameStage::PlayerShips(
            Some(id),
        )) {
            Err(GameError::WrongStage)
        } else if !self.paired(id) {
            Err(GameError::UnknownSeat)
        } else if !self.rules.spec_can_place(self.fleet(id), ship) {
            Err(GameError::StageOrLimit)
        } else if !ship.fits(point) {
            Err(GameError::OutOfRange)
        } else {
            let me = self.fleet(id).spec_place(ship, point);
            Ok((me, self.stage_after_place(id, me)))
        }
    }

    /// What a removal at `point` for the seat `id` leads to: its new fleet, or
    /// the error.
    pub open spec fn spec_remove_outcome(self, id: u8, point: Point) -> Result<Player, GameError> {
        if !(self.stage is PlayerShips) {
            Err(GameError::WrongStage)
        } else if !self.paired(id) {
            Err(GameError::UnknownSeat)
        } else {
            self.fleet(id).spec_remove(point)
        }
    }

    /// The stage after the seat `id` fired at `point` and the fleet it fired
    /// at is now `enemy`.
    pub open spec fn stage_after_shot(self, id: u8, point: Point, enemy: Player) -> GameStage {
        if enemy.ships.marked(point) {
            if enemy.spec_intact() {
                GameStage::PlayerShoots(id)
            } else {
                GameStage::PlayerWins(id)
            }
        } else {
            GameStage::PlayerShoots(self.enemy_id(id))
        }
    }

    /// What a shot by the seat `id` at `point` leads to: the fleet fired at,
    /// with the shot recorded, and the new stage, or the error.
    pub open spec fn spec_shoot_outcome(self, id: u8, point: Point) -> Result<
        (Player, GameStage),
        GameError,
    > {
        if self.stage != GameStage::PlayerShoots(id) {
            if self.stage is PlayerShoots {
                Err(GameError::WrongTurn)
            } else {
                Err(GameError::WrongStage)
            }
        } else if !self.paired(id) {
            Err(GameError::UnknownSeat)
        } else {
            let old_enemy = self.enemy(id);
            let enemy = Player { shots: old_enemy.shots.with_mark(point), ..old_enemy };
            Ok((enemy, self.stage_after_shot(id, point, enemy)))
        }
    }

    /// What the seat `id` is shown: never the other fleet's vessels, only
    /// those of its cells that have been fired at.
    pub open spec fn spec_snapshot(self, id: u8) -> StateSnapshot {
        StateSnapshot {
            my_ships: self.fleet(id).ships,
            my_marks: self.fleet(id).shots,
            enemy_marks: self.enemy(id).shots,
            enemy_losses: self.enemy(id).spec_hits(),
        }
    }

    /// A match with no seat taken, played by `rules`.
    pub fn new(rules: GameRules) -> (r: Game)
        ensures
            r.wf(),
            r.rules == rules,
            r.stage == GameStage::Waiting,
            r.player_a == Player::empty(),
            r.player_b == Player::empty(),
            r.connection_count == 0,
            r.connection_a is None,
            r.connection_b is None,
    {
        Game {
            rules: rules,
            stage: GameStage::Waiting,
            player_a: Player::new(),
            player_b: Player::new(),
            connection_count: 0,
            connection_a: None,
            connection_b: None,
            sender_a: None,
            sender_b: None,
        }
    }
    /// Takes the free seat, A first, under the next identifier; once both
    /// seats are taken, placement begins. Returns the identifier and the
    /// end on which the seat is woken when the match changes.
    pub fn connect(&mut self) -> (r: Result<(u8, Receiver<()>), GameError>)
        requires
            old(self).wf(),
            old(self).connection_count < 255,
        ensures
            final(self).wf(),
            old(self).both_seated() ==> r is Err && *final(self) == *old(self),
            match r {
                Ok((id, _)) => {
                    &&& !old(self).both_seated()
                    &&& id == old(self).connection_count + 1
                    &&& final(self).connection_count == id
                    &&& old(self).connection_a is None ==> final(self).connection_a == Some(id)
                        && final(self).connection_b == old(self).connection_b
                    &&& old(self).connection_a is Some ==> final(self).connection_a == old(
                        self,
                    ).connection_a && final(self).connection_b == Some(id)
                    &&& final(self).stage == (if final(self).both_seated() {
                        GameStage::PlayerShips(None)
                    } else {
                        old(self).stage
                    })
                    &&& final(self).rules == old(self).rules
                    &&& final(self).player_a == old(self).player_a
                    &&& final(self).player_b == old(self).player_b
                },
                Err(e) => old(self).both_seated() && e == GameError::SeatsFull,
            },
    {
        if self.connection_a.is_some() && self.connection_b.is_some() {
            return Err(GameError::SeatsFull);
        }
        self.connection_count = self.connection_count + 1;
        let (sender, receiver) = open_channel();
        if self.connection_a.is_none() {
            self.connection_a = Some(self.connection_count);
            self.sender_a = Some(sender);
        } else {
            self.connection_b = Some(self.connection_count);
            self.sender_b = Some(sender);
        }
        if self.connection_a.is_some() && self.connection_b.is_some() {
            self.stage = GameStage::PlayerShips(None);
        }
        Ok((self.connection_count, receiver))
    }

    /// Frees the seat `my_id`; the occupant of seat B moves to seat A when A
    /// leaves. Both fleets are emptied and the match waits again.
    pub fn disconnect(&mut self, my_id: u8) -> (r: Result<(), GameError>)
        requires
            old(self).wf(),
        ensures
            final(self).wf(),
            r is Ok <==> old(self).seated(my_id),
            r is Err ==> r == Err::<(), GameError>(GameError::UnknownSeat) && *final(self) == *old(
                self,
            ),
            r is Ok ==> {
                &&& final(self).connection_a == (if old(self).connection_a == Some(my_id) {
                    old(self).connection_b
                } else {
                    old(self).connection_a
                })
                &&& final(self).connection_b is None
                &&& final(self).connection_count == old(self).connection_count
                &&& final(self).rules == old(self).rules
                &&& final(self).player_a == Player::empty()
                &&& final(self).player_b == Player::empty()
                &&& final(self).stage == GameStage::Waiting
            },
    {
        if self.connection_a == Some(my_id) {
            self.connection_a = self.connection_b.take();
            self.sender_a = self.sender_b.take();
        } else if self.connection_b == Some(my_id) {
            self.connection_b = None;
            self.sender_b = None;
        } else {
            return Err(GameError::UnknownSeat);
        }
        self.player_a = Player::new();
        self.player_b = Player::new();
        self.stage = GameStage::Waiting;
        Ok(())
    }

    /// Places `ship` at `point` for the seat `my_id`. When that leaves the
    /// seat nothing more to place, the other seat is left to finish, or, if it
    /// has, seat A fires first.
    pub fn place_figure(&mut self, my_id: u8, ship: Ship, point: Point) -> (r: Result<(), GameError>)
        requires
            old(self).wf(),
            point.wf(),
        ensures
            final(self).wf(),
            match old(self).spec_place_outcome(my_id, ship, point) {
                Ok((me, stage)) => {
                    &&& r is Ok
                    &&& final(self).keeps_seats(*old(self))
                    &&& final(self).fleet(my_id) == me
                    &&& final(self).enemy(my_id) == old(self).enemy(my_id)
                    &&& final(self).stage == stage
                },
                Err(e) => r == Err::<(), GameError>(e) && *final(self) == *old(self),
            },
    {
        let stage = self.stage;
        let rules = self.rules;
        if stage != GameStage::PlayerShips(None) && stage != GameStage::PlayerShips(Some(my_id)) {
            return Err(GameError::WrongStage);
        }
        let players = match self.get_players(my_id) {
            Ok(players) => players,
            Err(e) => {
                return Err(e);
            },
        };
        let placed = if players.me_is_a {
            if !rules.can_place_ship(&self.player_a, ship) {
                return Err(GameError::StageOrLimit);
            }
            self.player_a.place_figure(ship, point)
        } else {
            if !rules.can_place_ship(&self.player_b, ship) {
                return Err(GameError::StageOrLimit);
            }
            self.player_b.place_figure(ship, point)
        };
        if let Err(e) = placed {
            return Err(e);
        }
        let available = if players.me_is_a {
            rules.has_available_ships(&self.player_a)
        } else {
            rules.has_available_ships(&self.player_b)
        };
        if !available {
            if stage == GameStage::PlayerShips(None) {
                self.stage = GameStage::PlayerShips(Some(players.enemy_id));
            } else {
                let first = if players.me_is_a {
                    players.my_id
                } else {
                    players.enemy_id
                };
                self.stage = GameStage::PlayerShoots(first);
            }
        }
        Ok(())
    }

    /// Removes the vessel of the seat `my_id` that covers `point`; allowed
    /// while fleets are being placed, whichever seat is still placing.
    pub fn remove_figure(&mut self, my_id: u8, point: Point) -> (r: Result<(), GameError>)
        requires
            old(self).wf(),
            point.wf(),
        ensures
            final(self).wf(),
            match old(self).spec_remove_outcome(my_id, point) {
                Ok(me) => {
                    &&& r is Ok
                    &&& final(self).keeps_seats(*old(self))
                    &&& final(self).fleet(my_id) == me
                    &&& final(self).enemy(my_id) == old(self).enemy(my_id)
                    &&& final(self).stage == old(self).stage
                },
                Err(e) => r == Err::<(), GameError>(e) && *final(self) == *old(self),
            },
    {
        match self.stage {
            GameStage::PlayerShips(_) => {},
            _ => {
                return Err(GameError::WrongStage);
            },
        }
        let players = match self.get_players(my_id) {
            Ok(players) => players,
            Err(e) => {
                return Err(e);
            },
        };
        if players.me_is_a {
            self.player_a.remove_figure(point)
        } else {
            self.player_b.remove_figure(point)
        }
    }

    /// The seat `my_id` fires at `point`. A miss passes the turn; a hit keeps
    /// it, and wins the match when no cell of the other fleet is left unhit.
    pub fn shoot(&mut self, my_id: u8, point: Point) -> (r: Result<(), GameError>)
        requires
            old(self).wf(),
            point.wf(),
        ensures
            final(self).wf(),
            match old(self).spec_shoot_outcome(my_id, point) {
                Ok((enemy, stage)) => {
                    &&& r is Ok
                    &&& final(self).keeps_seats(*old(self))
                    &&& final(self).fleet(my_id) == old(self).fleet(my_id)
                    &&& final(self).enemy(my_id) == enemy
                    &&& final(self).stage == stage
                },
                Err(e) => r == Err::<(), GameError>(e) && *final(self) == *old(self),
            },
    {
        match self.stage {
            GameStage::PlayerShoots(id) => {
                if id != my_id {
                    return Err(GameError::WrongTurn);
                }
            },
            _ => {
                return Err(GameError::WrongStage);
            },
        }
        let players = match self.get_players(my_id) {
            Ok(players) => players,
            Err(e) => {
                return Err(e);
            },
        };
        let (hit, intact) = if players.me_is_a {
            self.player_b.register_shot(point);
            (self.player_b.has_ship_at(point), self.player_b.has_intact_ships())
        } else {
            self.player_a.register_shot(point);
            (self.player_a.has_ship_at(point), self.player_a.has_intact_ships())
        };
        if hit {
            if !intact {
                self.stage = GameStage::PlayerWins(players.my_id);
            } else {
                self.stage = GameStage::PlayerShoots(players.my_id);
            }
        } else {
            self.stage = GameStage::PlayerShoots(players.enemy_id);
        }
        Ok(())
    }

    /// What the seat `my_id` is shown of the match.
    pub fn get_state(&self, my_id: u8) -> (r: Result<StateSnapshot, GameError>)
        ensures
            self.seated(my_id) ==> r == Ok::<StateSnapshot, GameError>(self.spec_snapshot(my_id)),
            !self.seated(my_id) ==> r == Err::<StateSnapshot, GameError>(GameError::UnknownSeat),
    {
        let (me, enemy) = if self.connection_a == Some(my_id) {
            (&self.player_a, &self.player_b)
        } else if self.connection_b == Some(my_id) {
            (&self.player_b, &self.player_a)
        } else {
            return Err(GameError::UnknownSeat);
        };
        Ok(
            StateSnapshot {
                my_ships: me.ships,
                my_marks: me.shots,
                enemy_marks: enemy.shots,
                enemy_losses: enemy.get_hits(),
            },
        )
    }

    /// Wakes both seats so that each fetches its view again. Delivery is best
    /// effort: a seat whose receiving end is gone is skipped.
    pub fn trigger_sync(&self) {
        if let Some(sender_a) = &self.sender_a {
            let _ = wake(sender_a);
        }
        if let Some(sender_b) = &self.sender_b {
            let _ = wake(sender_b);
        }
    }

    /// The seat `my_id` and the seat facing it; fails unless both are live.
    fn get_players(&self, my_id: u8) -> (r: Result<Players, GameError>)
        ensures
            match r {
                Ok(p) => {
                    &&& self.paired(my_id)
                    &&& p.my_id == my_id
                    &&& p.me_is_a == (self.connection_a == Some(my_id))
                    &&& p.enemy_id == self.enemy_id(my_id)
                },
                Err(e) => !self.paired(my_id) && e == GameError::UnknownSeat,
            },
    {
        if self.connection_a == Some(my_id) && self.connection_b.is_some() {
            Ok(
                Players {
                    my_id: my_id,
                    enemy_id: self.connection_b.unwrap(),
                    me_is_a: true,
                },
            )
        } else if self.connection_b == Some(my_id) && self.connection_a.is_some() {
            Ok(
                Players {
                    my_id: my_id,
                    enemy_id: self.connection_a.unwrap(),
                    me_is_a: false,
                },
            )
        } else {
            Err(GameError::UnknownSeat)
        }
    }
}

/// A seat whose fleet already holds as many vessels of a kind as the rules
/// allow is refused another one, and the match is left as it was.
pub proof fn lemma_limit_refuses(g: Game, id: u8, ship: Ship, point: Point)
    requires
        g.wf(),
        g.seated(id),
        g.stage == GameStage::PlayerShips(None) || g.stage == GameStage::PlayerShips(Some(id)),
        g.fleet(id).count_for(ship.spec_size()) >= g.rules.limit_for(ship.spec_size()),
    ensures
        g.spec_place_outcome(id, ship, point) == Err::<(Player, GameStage), GameError>(
            GameError::StageOrLimit,
        ),
{
}

/// While a seat is free, the match waits: nothing can be placed, removed or
/// fired until a second seat connects.
pub proof fn lemma_lone_seat_waits(g: Game, id: u8, ship: Ship, point: Point)
    requires
        g.wf(),
        !g.both_seated(),
    ensures
        g.stage == GameStage::Waiting,
        g.spec_place_outcome(id, ship, point) == Err::<(Player, GameStage), GameError>(
            GameError::WrongStage,
        ),
        g.spec_remove_outcome(id, point) == Err::<Player, GameError>(GameError::WrongStage),
        g.spec_shoot_outcome(id, point) == Err::<(Player, GameStage), GameError>(
            GameError::WrongStage,
        ),
{
}

/// A seat's view shows a cell of the other fleet's vessels only once that
/// seat has fired at it: every cell it sees as hit is one it fired at, and is
/// a vessel cell of the other fleet.
pub proof fn lemma_snapshot_hides_unshot(g: Game, id: u8)
    ensures
        forall|i: int|
            0 <= i < 128 ==> (#[trigger] g.spec_snapshot(id).enemy_losses.has(i) == (bit_set(
                g.enemy(id).ships.value,
                i,
            ) && g.spec_snapshot(id).enemy_marks.has(i))),
        forall|i: int|
            0 <= i < 128 && #[trigger] g.spec_snapshot(id).enemy_losses.has(i) ==> g.spec_snapshot(
                id,
            ).enemy_marks.has(i),
{
    assert forall|i: int| 0 <= i < 128 implies #[trigger] g.spec_snapshot(id).enemy_losses.has(i)
        == (bit_set(g.enemy(id).ships.value, i) && g.spec_snapshot(id).enemy_marks.has(i)) by {
        lemma_intersection_cells(g.enemy(id).ships.value, g.enemy(id).shots.value, i);
    }
}

} // verus!

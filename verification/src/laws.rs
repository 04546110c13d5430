use vstd::prelude::*;
use crate::car::Car;
use crate::config::Config;
use crate::road::{advance_queue, advance_rest, flow, gap_allows, tick_spec, RoadView};
use crate::se_base::{Light, Side};

verus! {

/// One tick carries the vehicle at most its own velocity forward along the
/// flow axis of the given queue. This holds of every vehicle that has
/// crossed and now only drives away from the intersection, and of every
/// approaching vehicle whose step cannot yet reach the turning line; a
/// left or right turn, which snaps onto another lane, is the one move that
/// can break it.
pub open spec fn no_overshoot(c: Car, cfg: Config, light: Light, label: Side, departing: bool) -> bool {
    flow(c.mooved(cfg, light), label, departing) <= flow(c, label, departing) + c.velocity
}

proof fn lemma_rest_spacing(q: Seq<Car>, front: int, light: Light, cfg: Config, label: Side, departing: bool)
    requires
        cfg.security_distance >= 0,
        forall|i: int| 0 <= i < q.len() ==> #[trigger] no_overshoot(q[i], cfg, light, label, departing),
    ensures
        ({
            let r = advance_rest(q, front, light, cfg, label, departing);
            &&& r.len() == q.len()
            &&& (q.len() > 0 && r[0] != q[0] ==> flow(r[0], label, departing)
                + cfg.security_distance < front)
            &&& forall|i: int|
                1 <= i < q.len() && r[i] != q[i] && r[i - 1] != q[i - 1] ==> flow(
                    #[trigger] r[i],
                    label,
                    departing,
                ) + cfg.security_distance < flow(r[i - 1], label, departing)
        }),
    decreases q.len(),
{
    if q.len() > 0 {
        let r = advance_rest(q, front, light, cfg, label, departing);
        let tailq = q.drop_first();
        assert forall|i: int| 0 <= i < tailq.len() implies #[trigger] no_overshoot(
            tailq[i],
            cfg,
            light,
            label,
            departing,
        ) by {
            assert(tailq[i] == q[i + 1]);
        }
        if gap_allows(q[0], front, cfg, label, departing) {
            let m = q[0].mooved(cfg, light);
            let f2 = flow(m, label, departing);
            lemma_rest_spacing(tailq, f2, light, cfg, label, departing);
            let tr = advance_rest(tailq, f2, light, cfg, label, departing);
            assert(r == seq![m] + tr);
            assert(r[0] == m);
            if r[0] != q[0] {
                assert(no_overshoot(q[0], cfg, light, label, departing));
            }
            assert forall|i: int|
                1 <= i < q.len() && r[i] != q[i] && r[i - 1] != q[i - 1] implies flow(
                #[trigger] r[i],
                label,
                departing,
            ) + cfg.security_distance < flow(r[i - 1], label, departing) by {
                assert(r[i] == tr[i - 1]);
                assert(tailq[i - 1] == q[i]);
                if i == 1 {
                    assert(flow(tr[0], label, departing) + cfg.security_distance < f2);
                } else {
                    assert(r[i - 1] == tr[i - 2]);
                    assert(tailq[i - 2] == q[i - 1]);
                }
            }
        } else {
            lemma_rest_spacing(tailq, front, light, cfg, label, departing);
            let tr = advance_rest(tailq, front, light, cfg, label, departing);
            assert(r == seq![q[0]] + tr);
            assert forall|i: int|
                1 <= i < q.len() && r[i] != q[i] && r[i - 1] != q[i - 1] implies flow(
                #[trigger] r[i],
                label,
                departing,
            ) + cfg.security_distance < flow(r[i - 1], label, departing) by {
                assert(r[i] == tr[i - 1]);
                assert(tailq[i - 1] == q[i]);
                if i >= 2 {
                    assert(r[i - 1] == tr[i - 2]);
                    assert(tailq[i - 2] == q[i - 1]);
                }
            }
        }
    }
}

/// LAW (car-following spacing): after one advance of a queue, a follower
/// that moved this tick sits more than the security distance behind the
/// vehicle directly ahead, provided that vehicle is the head or also moved
/// this tick, and no vehicle in the queue outruns its velocity along the
/// queue's flow axis. A follower compared against an older front position
/// because the vehicle directly ahead stood still is not covered: the
/// walk-forward rule of the engine reads the last moved position, not the
/// nearest one.
pub proof fn lemma_queue_spacing(q: Seq<Car>, light: Light, cfg: Config, label: Side, departing: bool)
    requires
        cfg.security_distance >= 0,
        forall|i: int| 0 <= i < q.len() ==> #[trigger] no_overshoot(q[i], cfg, light, label, departing),
    ensures
        ({
            let r = advance_queue(q, light, cfg, label, departing);
            &&& r.len() == q.len()
            &&& forall|i: int|
                1 <= i < q.len() && r[i] != q[i] && (i == 1 || r[i - 1] != q[i - 1]) ==> flow(
                    #[trigger] r[i],
                    label,
                    departing,
                ) + cfg.security_distance < flow(r[i - 1], label, departing)
        }),
{
    if q.len() > 0 {
        let r = advance_queue(q, light, cfg, label, departing);
        let m = q[0].mooved(cfg, light);
        let f2 = flow(m, label, departing);
        let tailq = q.drop_first();
        assert forall|i: int| 0 <= i < tailq.len() implies #[trigger] no_overshoot(
            tailq[i],
            cfg,
            light,
            label,
            departing,
        ) by {
            assert(tailq[i] == q[i + 1]);
        }
        lemma_rest_spacing(tailq, f2, light, cfg, label, departing);
        let tr = advance_rest(tailq, f2, light, cfg, label, departing);
        assert(r == seq![m] + tr);
        assert forall|i: int|
            1 <= i < q.len() && r[i] != q[i] && (i == 1 || r[i - 1] != q[i - 1]) implies flow(
            #[trigger] r[i],
            label,
            departing,
        ) + cfg.security_distance < flow(r[i - 1], label, departing) by {
            assert(r[i] == tr[i - 1]);
            assert(tailq[i - 1] == q[i]);
            if i == 1 {
                assert(r[0] == m);
                assert(flow(tr[0], label, departing) + cfg.security_distance < f2);
            } else {
                assert(r[i - 1] == tr[i - 2]);
                assert(tailq[i - 2] == q[i - 1]);
            }
        }
    }
}

/// LAW (crossing slot mutual exclusion): a tick never leaves more than one
/// vehicle in the crossing slot; at most one approach head can enter it,
/// and only when it is empty.
pub proof fn lemma_crossing_slot_exclusive(r: RoadView, cfg: Config)
    requires
        r.crossing.len() <= 1,
    ensures
        tick_spec(r, cfg).crossing.len() <= 1,
{
}

/// LAW (signal mutual exclusion): after any tick at most one light shows
/// green, whatever the lights showed before.
pub proof fn lemma_at_most_one_green(r: RoadView, cfg: Config)
    ensures
        tick_spec(r, cfg).green_count() <= 1,
{
}

/// LAW (forced red): a green phase lasts exactly one tick; a tick that
/// starts with any green light ends with all four red, whatever the queues
/// hold.
pub proof fn lemma_green_forces_red(r: RoadView, cfg: Config)
    requires
        r.some_green(),
    ensures
        tick_spec(r, cfg).light_north == Light::Red,
        tick_spec(r, cfg).light_south == Light::Red,
        tick_spec(r, cfg).light_east == Light::Red,
        tick_spec(r, cfg).light_west == Light::Red,
{
}

/// LAW (quiescence): with no vehicles anywhere, ticking leaves every queue
/// empty forever, and the lights alternate between the east light alone
/// (east wins the tie at length zero) and all red.
pub proof fn lemma_empty_road_tick(r: RoadView, cfg: Config)
    requires
        r.all_queues_empty(),
    ensures
        tick_spec(r, cfg).all_queues_empty(),
        r.some_green() ==> tick_spec(r, cfg).green_count() == 0,
        !r.some_green() ==> tick_spec(r, cfg).light_east == Light::Green
            && tick_spec(r, cfg).green_count() == 1,
{
}

} // verus!

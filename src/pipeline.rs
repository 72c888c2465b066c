use vstd::prelude::*;
use rand::Rng;
use crate::config::{ConfigError, HomeBoxItemConfig, MatrixMessageConfig};
use crate::inventory::HomeBoxItem;
use crate::template::{render, render_body};

verus! {

/// Which templates an alert sends.
#[derive(PartialEq, Eq, Structural, Debug, Clone, Copy)]
pub enum TemplateSelection {
    /// Every configured template, in order.
    SendAll,
    /// One template, chosen uniformly at random.
    SendRandomOne,
}

/// The stage at which a run aborted.
#[derive(PartialEq, Eq, Structural, Debug, Clone, Copy)]
pub enum Stage {
    ChatLogin,
    InventoryLogin,
    RoomResolution,
    Delivery,
}

/// Where a run stands.
#[derive(PartialEq, Eq, Structural, Debug, Clone, Copy)]
pub enum Phase {
    ChatLogin,
    InventoryLogin,
    RoomResolution,
    /// Waiting for the lookup of the item at this index.
    Lookup(usize),
    /// Waiting for the alert of the item at this index to be sent.
    Sending(usize),
    Completed,
    Aborted(Stage),
}

/// The result of one monitored item in a run.
#[derive(Debug, Clone)]
pub enum DeliveryOutcome {
    /// Stock is above the threshold: no alert.
    Suppressed,
    /// Stock is at or below the threshold and the alert was sent.
    Delivered,
    /// The lookup failed, for the reason given.
    Failed(String),
}

/// One alert ready to send: a plain-text body and its HTML counterpart.
#[derive(Debug, Clone)]
pub struct RenderedMessage {
    pub plain: String,
    pub html: String,
}

/// What the caller is to do next.
#[derive(Debug, Clone)]
pub enum Action {
    AuthenticateChat,
    AuthenticateInventory,
    ResolveRoom,
    /// Look up the monitored item at this index.
    FetchItem { index: usize },
    /// Send these messages, in order, as the alert of the item at this index.
    Send { index: usize, messages: Vec<RenderedMessage> },
    /// The run is complete; its outcomes are final.
    Finish,
    /// The run is aborted at this stage.
    Abort { stage: Stage },
}

/// Whether a quantity counts as low stock: at or below the threshold.
pub open spec fn low_stock(quantity: i32, threshold: i32) -> bool {
    quantity <= threshold
}

/// Whether stock of `quantity` is low for `threshold`.
pub fn is_low_stock(quantity: i32, threshold: i32) -> (r: bool)
    ensures
        r == low_stock(quantity, threshold),
{
    quantity <= threshold
}

/// Whether `m` is `t` rendered for `item` at `threshold`.
pub open spec fn renders(m: RenderedMessage, t: MatrixMessageConfig, item: HomeBoxItem, threshold: i32) -> bool {
    &&& m.plain@ == render_body(t.plain@, item, threshold)
    &&& m.html@ == render_body(t.html@, item, threshold)
}

/// Whether `msgs` is the alert for `item`: every template in order, or the picked one.
pub open spec fn is_alert(
    selection: TemplateSelection,
    templates: Seq<MatrixMessageConfig>,
    pick: int,
    item: HomeBoxItem,
    threshold: i32,
    msgs: Seq<RenderedMessage>,
) -> bool {
    match selection {
        TemplateSelection::SendAll => {
            &&& msgs.len() == templates.len()
            &&& forall|j: int| 0 <= j < msgs.len() ==> renders(#[trigger] msgs[j], templates[j], item, threshold)
        },
        TemplateSelection::SendRandomOne => {
            &&& msgs.len() == 1
            &&& renders(msgs[0], templates[pick], item, threshold)
        },
    }
}

/// Relies on `rand::Rng::gen_range` over `thread_rng`: a value in `0..n`,
/// which panics on an empty range.
#[verifier::external_body]
fn random_below(n: usize) -> (r: usize)
    requires
        n > 0,
    ensures
        r < n,
{
    rand::thread_rng().gen_range(0..n)
}

/// The decisions of one notification run over the monitored items.
pub struct Pipeline {
    pub items: Vec<HomeBoxItemConfig>,
    pub templates: Vec<MatrixMessageConfig>,
    pub selection: TemplateSelection,
    pub phase: Phase,
    pub outcomes: Vec<DeliveryOutcome>,
}

impl Pipeline {
    /// One outcome per item already handled, in item order; at least one template.
    pub open spec fn wf(&self) -> bool {
        &&& self.templates@.len() > 0
        &&& match self.phase {
            Phase::ChatLogin | Phase::InventoryLogin | Phase::RoomResolution => self.outcomes@.len() == 0,
            Phase::Lookup(i) | Phase::Sending(i) => i < self.items@.len() && self.outcomes@.len() == i,
            Phase::Completed => self.outcomes@.len() == self.items@.len(),
            Phase::Aborted(_) => self.outcomes@.len() <= self.items@.len(),
        }
    }

    /// The phase and action that follow once the items before `next` are handled.
    pub open spec fn advanced(&self, next: nat, a: Action) -> bool {
        if next >= self.items@.len() {
            self.phase == Phase::Completed && a is Finish
        } else {
            self.phase == Phase::Lookup(next as usize) && a == (Action::FetchItem { index: next as usize })
        }
    }

    /// The configuration of the run is kept by every step.
    pub open spec fn same_run(&self, other: &Pipeline) -> bool {
        &&& self.items == other.items
        &&& self.templates == other.templates
        &&& self.selection == other.selection
    }

    /// A run over `items` that alerts with `templates`; it starts by logging into chat.
    pub fn new(
        items: Vec<HomeBoxItemConfig>,
        templates: Vec<MatrixMessageConfig>,
        selection: TemplateSelection,
    ) -> (r: Result<Pipeline, ConfigError>)
        ensures
            templates@.len() == 0 <==> r is Err,
            r matches Err(e) ==> e == ConfigError::NoMatrixMessages,
            r matches Ok(p) ==> {
                &&& p.wf()
                &&& p.items == items
                &&& p.templates == templates
                &&& p.selection == selection
                &&& p.phase == Phase::ChatLogin
            },
    {
        if templates.len() == 0 {
            return Err(ConfigError::NoMatrixMessages);
        }
        Ok(Pipeline { items, templates, selection, phase: Phase::ChatLogin, outcomes: Vec::new() })
    }

    /// The first action of a run.
    pub fn start(&self) -> (a: Action)
        ensures
            a is AuthenticateChat,
    {
        Action::AuthenticateChat
    }

    fn advance(&mut self, next: usize) -> (a: Action)
        requires
            next <= old(self).items@.len(),
            old(self).templates@.len() > 0,
            old(self).outcomes@.len() == next,
        ensures
            final(self).same_run(old(self)),
            final(self).outcomes == old(self).outcomes,
            final(self).advanced(next as nat, a),
            final(self).wf(),
    {
        if next >= self.items.len() {
            self.phase = Phase::Completed;
            Action::Finish
        } else {
            self.phase = Phase::Lookup(next);
            Action::FetchItem { index: next }
        }
    }

    /// Chat login finished: go on to the inventory login, or abort the run.
    pub fn on_chat_login(&mut self, ok: bool) -> (a: Action)
        requires
            old(self).wf(),
            old(self).phase == Phase::ChatLogin,
        ensures
            final(self).wf(),
            final(self).same_run(old(self)),
            final(self).outcomes == old(self).outcomes,
            ok ==> final(self).phase == Phase::InventoryLogin && a is AuthenticateInventory,
            !ok ==> final(self).phase == Phase::Aborted(Stage::ChatLogin) && a == (Action::Abort {
                stage: Stage::ChatLogin,
            }),
    {
        if ok {
            self.phase = Phase::InventoryLogin;
            Action::AuthenticateInventory
        } else {
            self.phase = Phase::Aborted(Stage::ChatLogin);
            Action::Abort { stage: Stage::ChatLogin }
        }
    }

    /// Inventory login finished: go on to resolve the room, or abort the run.
    pub fn on_inventory_login(&mut self, ok: bool) -> (a: Action)
        requires
            old(self).wf(),
            old(self).phase == Phase::InventoryLogin,
        ensures
            final(self).wf(),
            final(self).same_run(old(self)),
            final(self).outcomes == old(self).outcomes,
            ok ==> final(self).phase == Phase::RoomResolution && a is ResolveRoom,
            !ok ==> final(self).phase == Phase::Aborted(Stage::InventoryLogin) && a == (
            Action::Abort { stage: Stage::InventoryLogin }),
    {
        if ok {
            self.phase = Phase::RoomResolution;
            Action::ResolveRoom
        } else {
            self.phase = Phase::Aborted(Stage::InventoryLogin);
            Action::Abort { stage: Stage::InventoryLogin }
        }
    }

    /// The room is resolved: look up the first item, or abort the run.
    pub fn on_room_resolved(&mut self, ok: bool) -> (a: Action)
        requires
            old(self).wf(),
            old(self).phase == Phase::RoomResolution,
        ensures
            final(self).wf(),
            final(self).same_run(old(self)),
            final(self).outcomes == old(self).outcomes,
            ok ==> final(self).advanced(0, a),
            !ok ==> final(self).phase == Phase::Aborted(Stage::RoomResolution) && a == (
            Action::Abort { stage: Stage::RoomResolution }),
    {
        if ok {
            self.advance(0)
        } else {
            self.phase = Phase::Aborted(Stage::RoomResolution);
            Action::Abort { stage: Stage::RoomResolution }
        }
    }

    fn alert_messages(&self, item: &HomeBoxItem, threshold: i32, pick: usize) -> (r: Vec<
        RenderedMessage,
    >)
        requires
            pick < self.templates@.len(),
        ensures
            is_alert(self.selection, self.templates@, pick as int, *item, threshold, r@),
    {
        let mut msgs: Vec<RenderedMessage> = Vec::new();
        match self.selection {
            TemplateSelection::SendRandomOne => {
                let (plain, html) = render(&self.templates[pick], item, threshold);
                msgs.push(RenderedMessage { plain, html });
            },
            TemplateSelection::SendAll => {
                let mut j: usize = 0;
                while j < self.templates.len()
                    invariant
                        j <= self.templates@.len(),
                        msgs@.len() == j,
                        forall|m: int|
                            0 <= m < j ==> renders(#[trigger] msgs@[m], self.templates@[m], *item, threshold),
                    decreases self.templates@.len() - j,
                {
                    let (plain, html) = render(&self.templates[j], item, threshold);
                    msgs.push(RenderedMessage { plain, html });
                    j = j + 1;
                }
            },
        }
        msgs
    }

    /// The lookup of the current item finished. A failed lookup is recorded
    /// and the run goes on with the next item; stock above the threshold is
    /// recorded as suppressed; stock at or below it produces the alert,
    /// built from template `pick` when one template is sent.
    pub fn on_lookup(&mut self, result: Result<HomeBoxItem, String>, pick: usize) -> (a: Action)
        requires
            old(self).wf(),
            old(self).phase is Lookup,
            pick < old(self).templates@.len(),
        ensures
            final(self).wf(),
            final(self).same_run(old(self)),
            ({
                let i = old(self).phase->Lookup_0;
                let threshold = old(self).items@[i as int].threshold;
                match result {
                    Err(reason) => {
                        &&& final(self).outcomes@ == old(self).outcomes@.push(
                            DeliveryOutcome::Failed(reason),
                        )
                        &&& final(self).advanced((i + 1) as nat, a)
                    },
                    Ok(item) => if low_stock(item.quantity, threshold) {
                        &&& final(self).outcomes == old(self).outcomes
                        &&& final(self).phase == Phase::Sending(i)
                        &&& a matches Action::Send { index, messages } && index == i && is_alert(
                            old(self).selection,
                            old(self).templates@,
                            pick as int,
                            item,
                            threshold,
                            messages@,
                        )
                    } else {
                        &&& final(self).outcomes@ == old(self).outcomes@.push(
                            DeliveryOutcome::Suppressed,
                        )
                        &&& final(self).advanced((i + 1) as nat, a)
                    },
                }
            }),
    {
        let i = match self.phase {
            Phase::Lookup(i) => i,
            _ => 0,
        };
        let n = self.items.len();
        assert(i < n);
        let threshold = self.items[i].threshold;
        match result {
            Err(reason) => {
                self.outcomes.push(DeliveryOutcome::Failed(reason));
                self.advance(i + 1)
            },
            Ok(item) => {
                if is_low_stock(item.quantity, threshold) {
                    let messages = self.alert_messages(&item, threshold, pick);
                    self.phase = Phase::Sending(i);
                    Action::Send { index: i, messages }
                } else {
                    self.outcomes.push(DeliveryOutcome::Suppressed);
                    self.advance(i + 1)
                }
            },
        }
    }

    /// As `on_lookup`, with the template to send picked at random.
    pub fn on_lookup_random(&mut self, result: Result<HomeBoxItem, String>) -> (a: Action)
        requires
            old(self).wf(),
            old(self).phase is Lookup,
        ensures
            final(self).wf(),
            final(self).same_run(old(self)),
            ({
                let i = old(self).phase->Lookup_0;
                let threshold = old(self).items@[i as int].threshold;
                match result {
                    Err(reason) => {
                        &&& final(self).outcomes@ == old(self).outcomes@.push(
                            DeliveryOutcome::Failed(reason),
                        )
                        &&& final(self).advanced((i + 1) as nat, a)
                    },
                    Ok(item) => if low_stock(item.quantity, threshold) {
                        &&& final(self).outcomes == old(self).outcomes
                        &&& final(self).phase == Phase::Sending(i)
                        &&& a matches Action::Send { index, messages } && index == i && exists|
                            pick: int,
                        |
                            0 <= pick < old(self).templates@.len() && is_alert(
                                old(self).selection,
                                old(self).templates@,
                                pick,
                                item,
                                threshold,
                                messages@,
                            )
                    } else {
                        &&& final(self).outcomes@ == old(self).outcomes@.push(
                            DeliveryOutcome::Suppressed,
                        )
                        &&& final(self).advanced((i + 1) as nat, a)
                    },
                }
            }),
    {
        let pick = random_below(self.templates.len());
        self.on_lookup(result, pick)
    }

    /// The alert of the current item was sent, or sending it failed: a sent
    /// alert is recorded and the run goes on; a failure aborts the run, and
    /// no outcome is recorded for this item or any later one.
    pub fn on_send(&mut self, ok: bool) -> (a: Action)
        requires
            old(self).wf(),
            old(self).phase is Sending,
        ensures
            final(self).wf(),
            final(self).same_run(old(self)),
            ({
                let i = old(self).phase->Sending_0;
                if ok {
                    &&& final(self).outcomes@ == old(self).outcomes@.push(DeliveryOutcome::Delivered)
                    &&& final(self).advanced((i + 1) as nat, a)
                } else {
                    &&& final(self).outcomes == old(self).outcomes
                    &&& final(self).outcomes@.len() == i
                    &&& final(self).phase == Phase::Aborted(Stage::Delivery)
                    &&& a == (Action::Abort { stage: Stage::Delivery })
                }
            }),
    {
        let i = match self.phase {
            Phase::Sending(i) => i,
            _ => 0,
        };
        let n = self.items.len();
        assert(i < n);
        if ok {
            self.outcomes.push(DeliveryOutcome::Delivered);
            self.advance(i + 1)
        } else {
            self.phase = Phase::Aborted(Stage::Delivery);
            Action::Abort { stage: Stage::Delivery }
        }
    }
}

} // verus!

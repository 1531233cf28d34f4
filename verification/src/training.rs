use vstd::prelude::*;
use vstd::arithmetic::div_mod::lemma_fundamental_div_mod_converse;
use crate::cross_entropy_loss::cross_entropy_loss;
use crate::cross_entropy_loss::loss_of;
use crate::models::Discriminator;
use crate::models::ShapeMismatchError;
use crate::tensor::dims1;
use crate::tensor::dims4;
use crate::tensor::elements1;
use crate::tensor::float_of;
use crate::tensor::float_quotient;
use crate::tensor::float_sum;
use crate::tensor::has_dims1;
use crate::tensor::not_a_number;
use crate::tensor::tensor1_add;
use crate::tensor::tensor1_div_scalar;
use crate::tensor::tensor1_filled_like;
use crate::tensor::tensor4_detach;
use crate::tensor::within_zero_one;
use crate::tensor::Tensor1;
use crate::tensor::Tensor4;

verus! {

/// The target of the discriminator for an image of the content store.
pub const REAL_LABEL: i32 = 1;

/// The target of the discriminator for a generated image.
pub const FAKE_LABEL: i32 = 0;

/// The two halves of the discriminator's loss are averaged: their sum is
/// divided by this.
pub const LOSS_HALVES: i32 = 2;

/// Where a training run stands.
#[derive(Clone, Copy, Debug, PartialEq, Eq, Structural)]
pub enum Phase {
    /// Nothing was asked for yet.
    Initializing,
    /// The discriminator's update for the current batch was asked for.
    DiscriminatorStep,
    /// The generator's update for the current batch was asked for.
    GeneratorStep,
    /// The run is over.
    Completed,
}

/// What the caller is to do next.
#[derive(Clone, Copy, Debug, PartialEq, Eq, Structural)]
pub enum Action {
    /// Draw batch `batch` of epoch `epoch` and as many fresh latent vectors,
    /// generate images from them, and update the discriminator once with the
    /// loss of `discriminator_step_loss`.
    UpdateDiscriminator { epoch: usize, batch: usize },
    /// Update the generator once with the loss that `generator_step_loss`
    /// gives for the images generated for this batch, judged by the
    /// discriminator as it is after its update.
    UpdateGenerator { epoch: usize, batch: usize },
    /// Stop: every batch of every epoch was trained on.
    Finish,
}

/// The `position`-th action of a run of `epochs` epochs of `batches` batches
/// each, counted from zero: batch after batch and epoch after epoch, for each
/// batch the discriminator's update and then the generator's; after the last
/// batch of the last epoch, to finish.
pub open spec fn schedule(epochs: nat, batches: nat, position: nat) -> Action {
    if position >= 2 * (epochs * batches) {
        Action::Finish
    } else if position % 2 == 0 {
        Action::UpdateDiscriminator {
            epoch: ((position / 2) / batches) as usize,
            batch: ((position / 2) % batches) as usize,
        }
    } else {
        Action::UpdateGenerator {
            epoch: ((position / 2) / batches) as usize,
            batch: ((position / 2) % batches) as usize,
        }
    }
}

/// Drives a training run: says, one action after the other, what is to be
/// done, and keeps count of where the run stands.
pub struct TrainingOrchestrator {
    epochs: usize,
    batches: usize,
    epoch: usize,
    batch: usize,
    phase: Phase,
}

impl TrainingOrchestrator {
    #[verifier::type_invariant]
    spec fn consistent(self) -> bool {
        match self.phase {
            Phase::Initializing => self.epoch == 0 && self.batch == 0,
            Phase::DiscriminatorStep | Phase::GeneratorStep => {
                self.epoch < self.epochs && self.batch < self.batches
            },
            Phase::Completed => true,
        }
    }

    /// The number of epochs of the run.
    pub closed spec fn epochs(&self) -> nat {
        self.epochs as nat
    }

    /// The number of batches of each epoch.
    pub closed spec fn batches(&self) -> nat {
        self.batches as nat
    }

    /// Where the run stands.
    pub closed spec fn phase(&self) -> Phase {
        self.phase
    }

    /// The number of actions handed out so far, the final one not counted.
    pub closed spec fn handed_out(&self) -> nat {
        match self.phase {
            Phase::Initializing => 0,
            Phase::DiscriminatorStep => 2 * (self.epoch * self.batches + self.batch) as nat + 1,
            Phase::GeneratorStep => 2 * (self.epoch * self.batches + self.batch) as nat + 2,
            Phase::Completed => 2 * (self.epochs * self.batches) as nat,
        }
    }

    /// A run of `epochs` epochs of `batches` batches each, not yet started.
    pub fn new(epochs: usize, batches: usize) -> (run: TrainingOrchestrator)
        ensures
            run.epochs() == epochs,
            run.batches() == batches,
            run.phase() == Phase::Initializing,
            run.handed_out() == 0,
    {
        TrainingOrchestrator { epochs, batches, epoch: 0, batch: 0, phase: Phase::Initializing }
    }

    /// Where the run stands.
    pub fn current_phase(&self) -> (phase: Phase)
        ensures
            phase == self.phase(),
    {
        self.phase
    }

    /// The next action of the run: the one the schedule has at the position
    /// that the count of actions handed out gives.
    pub fn next(&mut self) -> (action: Action)
        ensures
            action == schedule(old(self).epochs(), old(self).batches(), old(self).handed_out()),
            final(self).epochs() == old(self).epochs(),
            final(self).batches() == old(self).batches(),
            action != Action::Finish ==> final(self).handed_out() == old(self).handed_out() + 1,
            action == Action::Finish ==> final(self).handed_out() == old(self).handed_out(),
            final(self).phase() == match action {
                Action::UpdateDiscriminator { .. } => Phase::DiscriminatorStep,
                Action::UpdateGenerator { .. } => Phase::GeneratorStep,
                Action::Finish => Phase::Completed,
            },
    {
        proof {
            use_type_invariant(&*self);
        }
        match self.phase {
            Phase::Initializing => {
                if self.epochs == 0 || self.batches == 0 {
                    proof {
                        lemma_product(self.epochs as int, self.batches as int, 0, 0);
                    }
                    self.phase = Phase::Completed;
                    Action::Finish
                } else {
                    proof {
                        lemma_schedule_of_batch(self.epochs, self.batches, 0, 0);
                    }
                    self.phase = Phase::DiscriminatorStep;
                    Action::UpdateDiscriminator { epoch: 0, batch: 0 }
                }
            },
            Phase::DiscriminatorStep => {
                proof {
                    lemma_schedule_of_batch(self.epochs, self.batches, self.epoch, self.batch);
                }
                self.phase = Phase::GeneratorStep;
                Action::UpdateGenerator { epoch: self.epoch, batch: self.batch }
            },
            Phase::GeneratorStep => {
                if self.batch + 1 < self.batches {
                    proof {
                        lemma_schedule_of_batch(
                            self.epochs,
                            self.batches,
                            self.epoch,
                            (self.batch + 1) as usize,
                        );
                    }
                    self.batch = self.batch + 1;
                    self.phase = Phase::DiscriminatorStep;
                    Action::UpdateDiscriminator { epoch: self.epoch, batch: self.batch }
                } else if self.epoch + 1 < self.epochs {
                    proof {
                        lemma_schedule_of_batch(
                            self.epochs,
                            self.batches,
                            (self.epoch + 1) as usize,
                            0,
                        );
                        assert((self.epoch + 1) * self.batches + 0 == self.epoch * self.batches
                            + self.batch + 1) by (nonlinear_arith)
                            requires
                                self.batch + 1 == self.batches,
                        ;
                    }
                    self.epoch = self.epoch + 1;
                    self.batch = 0;
                    self.phase = Phase::DiscriminatorStep;
                    Action::UpdateDiscriminator { epoch: self.epoch, batch: 0 }
                } else {
                    proof {
                        assert(self.epoch * self.batches + self.batch + 1 == self.epochs
                            * self.batches) by (nonlinear_arith)
                            requires
                                self.batch + 1 == self.batches,
                                self.epoch + 1 == self.epochs,
                        ;
                    }
                    self.phase = Phase::Completed;
                    Action::Finish
                }
            },
            Phase::Completed => Action::Finish,
        }
    }
}

/// For every batch of every epoch the schedule has the discriminator's
/// update and, directly after it, the generator's update for the same batch,
/// at the two positions that belong to the batch.
pub proof fn lemma_schedule_of_batch(epochs: usize, batches: usize, epoch: usize, batch: usize)
    requires
        epoch < epochs,
        batch < batches,
    ensures
        schedule(epochs as nat, batches as nat, (2 * (epoch * batches + batch)) as nat)
            == (Action::UpdateDiscriminator { epoch, batch }),
        schedule(epochs as nat, batches as nat, (2 * (epoch * batches + batch) + 1) as nat)
            == (Action::UpdateGenerator { epoch, batch }),
        0 <= epoch * batches + batch < epochs * batches,
{
    let at = epoch * batches + batch;
    lemma_product(epochs as int, batches as int, epoch as int, batch as int);
    lemma_fundamental_div_mod_converse(at, batches as int, epoch as int, batch as int);
}

/// The schedule asks to finish exactly from the position on that follows the
/// two updates of the last batch of the last epoch.
pub proof fn lemma_schedule_ends(epochs: nat, batches: nat, position: nat)
    ensures
        schedule(epochs, batches, position) == Action::Finish <==> position >= 2 * (epochs
            * batches),
{
}

/// Before its end the schedule alternates: at every even position stands a
/// discriminator's update and at the position after it the generator's
/// update for the same batch of the same epoch.
pub proof fn lemma_schedule_alternates(epochs: nat, batches: nat, position: nat)
    requires
        position % 2 == 0,
        position < 2 * (epochs * batches),
    ensures
        schedule(epochs, batches, position) is UpdateDiscriminator,
        schedule(epochs, batches, position + 1) is UpdateGenerator,
        schedule(epochs, batches, position)->UpdateDiscriminator_epoch == schedule(
            epochs,
            batches,
            position + 1,
        )->UpdateGenerator_epoch,
        schedule(epochs, batches, position)->UpdateDiscriminator_batch == schedule(
            epochs,
            batches,
            position + 1,
        )->UpdateGenerator_batch,
{
}

/// Batch `batch` of epoch `epoch` stands before the end of a run of `epochs`
/// epochs of `batches` batches.
proof fn lemma_product(epochs: int, batches: int, epoch: int, batch: int)
    requires
        0 <= epoch,
        0 <= batch,
        0 <= epochs,
        0 <= batches,
        epochs == 0 || batches == 0 || (epoch < epochs && batch < batches),
    ensures
        0 <= epochs * batches,
        0 <= epoch * batches,
        (epochs == 0 || batches == 0) ==> epochs * batches == 0,
        (epoch < epochs && batch < batches) ==> epoch * batches + batch < epochs * batches,
{
    assert(0 <= epochs * batches) by (nonlinear_arith)
        requires
            0 <= epochs,
            0 <= batches,
    ;
    assert(0 <= epoch * batches) by (nonlinear_arith)
        requires
            0 <= epoch,
            0 <= batches,
    ;
    if epoch < epochs && batch < batches {
        assert(epoch * batches + batches <= epochs * batches) by (nonlinear_arith)
            requires
                epoch + 1 <= epochs,
                0 <= batches,
        ;
    }
}

/// The number of batches that one pass over `records` records takes with
/// batches of `batch_size` records, the last of which may be smaller. There is
/// no such number for batches of no records.
pub fn batches_per_epoch(records: usize, batch_size: usize) -> (batches: Option<usize>)
    ensures
        batches is Some <==> batch_size > 0,
        batches is Some ==> {
            &&& batches->0 * batch_size >= records
            &&& batches->0 * batch_size < records + batch_size
        },
{
    if batch_size == 0 {
        return None;
    }
    let full = records / batch_size;
    let rest = records % batch_size;
    assert(records == full * batch_size + rest) by (nonlinear_arith)
        requires
            full == records / batch_size,
            rest == records % batch_size,
            batch_size > 0,
    ;
    if rest == 0 {
        Some(full)
    } else {
        assert((full + 1) * batch_size == full * batch_size + batch_size) by (nonlinear_arith);
        assert(full * 2 <= full * batch_size) by (nonlinear_arith)
            requires
                batch_size >= 2,
                full >= 0,
        ;
        Some(full + 1)
    }
}

/// Whether `verdicts` are what a discriminator says of `n` images: as many
/// values, each a number from 0 to 1 or no number at all.
pub open spec fn judged(n: int, verdicts: Seq<u32>) -> bool {
    &&& verdicts.len() == n
    &&& forall|i: int|
        0 <= i < verdicts.len() ==> within_zero_one(#[trigger] verdicts[i]) || not_a_number(
            verdicts[i],
        )
}

/// The loss of verdicts against one label for all of them: the loss of
/// `loss_of` with as many targets as verdicts, every one the label.
pub open spec fn label_loss_of(label: int, verdicts: Seq<u32>) -> Seq<u32> {
    loss_of(verdicts.map_values(|v: u32| float_of(label)), verdicts)
}

/// The loss that the discriminator is updated with, given its verdicts on
/// the real and on the generated images: the sum of the loss of the first
/// against `REAL_LABEL` and of the loss of the second against `FAKE_LABEL`,
/// divided by `LOSS_HALVES`.
pub open spec fn discriminator_loss_of(on_real: Seq<u32>, on_generated: Seq<u32>) -> Seq<u32> {
    seq![
        float_quotient(
            float_sum(
                label_loss_of(REAL_LABEL as int, on_real)[0],
                label_loss_of(FAKE_LABEL as int, on_generated)[0],
            ),
            float_of(LOSS_HALVES as int),
        ),
    ]
}

/// The loss of verdicts against one label for all of them. Refuses no
/// verdicts at all.
pub fn label_loss(verdicts: Tensor1, label: i32) -> (result: Result<Tensor1, ShapeMismatchError>)
    ensures
        match result {
            Ok(loss) => {
                &&& dims1(verdicts)[0] >= 1
                &&& has_dims1(loss, 1)
                &&& elements1(loss) == label_loss_of(label as int, elements1(verdicts))
            },
            Err(error) => dims1(verdicts)[0] == 0 && error == ShapeMismatchError::BatchSize,
        },
{
    let targets = tensor1_filled_like(&verdicts, label);
    cross_entropy_loss(targets, verdicts)
}

/// The reason why the discriminator's update cannot be computed for real and
/// generated images of the given extents, if any: that for which the
/// discriminator refuses the real ones, else that for which it refuses the
/// generated ones.
pub open spec fn discriminator_step_refusal(
    discriminator: Discriminator,
    real_images: Seq<usize>,
    generated: Seq<usize>,
) -> Option<ShapeMismatchError> {
    if discriminator.refusal(real_images) is Some {
        discriminator.refusal(real_images)
    } else {
        discriminator.refusal(generated)
    }
}

/// The loss that the discriminator is updated with: the mean of its loss on
/// the real images against `REAL_LABEL` and its loss on the generated images
/// against `FAKE_LABEL`, as `discriminator_loss_of` gives it for its verdicts
/// on the two. The generated images are judged on a detached copy, so that
/// the gradients of this loss reach the discriminator's parameters and none
/// of the generator's.
pub fn discriminator_step_loss(
    discriminator: &Discriminator,
    real_images: Tensor4,
    generated: &Tensor4,
) -> (result: Result<Tensor1, ShapeMismatchError>)
    requires
        discriminator.wf(),
    ensures
        match result {
            Ok(loss) => {
                &&& discriminator_step_refusal(
                    *discriminator,
                    dims4(real_images),
                    dims4(*generated),
                ) is None
                &&& has_dims1(loss, 1)
                &&& exists|on_real: Seq<u32>, on_generated: Seq<u32>|
                    judged(dims4(real_images)[0] as int, on_real) && judged(
                        dims4(*generated)[0] as int,
                        on_generated,
                    ) && elements1(loss) == #[trigger] discriminator_loss_of(on_real, on_generated)
            },
            Err(error) => discriminator_step_refusal(
                *discriminator,
                dims4(real_images),
                dims4(*generated),
            ) == Some(error),
        },
{
    let on_real = match discriminator.forward(real_images) {
        Ok(verdicts) => verdicts,
        Err(error) => {
            return Err(error);
        },
    };
    let on_generated = match discriminator.forward(tensor4_detach(generated)) {
        Ok(verdicts) => verdicts,
        Err(error) => {
            return Err(error);
        },
    };
    let ghost real_verdicts = elements1(on_real);
    let ghost generated_verdicts = elements1(on_generated);
    let real_half = match label_loss(on_real, REAL_LABEL) {
        Ok(loss) => loss,
        Err(error) => {
            return Err(error);
        },
    };
    let generated_half = match label_loss(on_generated, FAKE_LABEL) {
        Ok(loss) => loss,
        Err(error) => {
            return Err(error);
        },
    };
    assert(dims1(real_half) =~= dims1(generated_half));
    let ghost halves = elements1(real_half).len();
    let loss = tensor1_div_scalar(tensor1_add(real_half, generated_half), LOSS_HALVES);
    assert(elements1(loss) =~= discriminator_loss_of(real_verdicts, generated_verdicts));
    Ok(loss)
}

/// The loss that the generator is updated with: the discriminator's loss on
/// the generated images against `REAL_LABEL`, as `label_loss_of` gives it for
/// the discriminator's verdicts. The images are judged as they are, so that
/// the gradients of this loss reach the generator's parameters.
pub fn generator_step_loss(discriminator: &Discriminator, generated: Tensor4) -> (result: Result<
    Tensor1,
    ShapeMismatchError,
>)
    requires
        discriminator.wf(),
    ensures
        match result {
            Ok(loss) => {
                &&& discriminator.refusal(dims4(generated)) is None
                &&& has_dims1(loss, 1)
                &&& exists|verdicts: Seq<u32>|
                    judged(dims4(generated)[0] as int, verdicts) && elements1(loss)
                        == #[trigger] label_loss_of(REAL_LABEL as int, verdicts)
            },
            Err(error) => discriminator.refusal(dims4(generated)) == Some(error),
        },
{
    match discriminator.forward(generated) {
        Ok(verdicts) => {
            let ghost given = elements1(verdicts);
            let result = label_loss(verdicts, REAL_LABEL);
            assert(result is Ok ==> elements1(result->Ok_0) == label_loss_of(
                REAL_LABEL as int,
                given,
            ));
            result
        },
        Err(error) => Err(error),
    }
}

} // verus!

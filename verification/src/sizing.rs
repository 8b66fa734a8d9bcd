//! How large a model is once its weights are packed.

use vstd::prelude::*;

verus! {

/// Where a serialised tensor says how it is quantised: always its fifth byte.
pub const UQFF_QUANT_TYPE_OFFSET: usize = 4;

/// Reads how a serialised tensor is quantised.
pub fn quant_type_byte(artifact: &[u8]) -> (r: u8)
    requires
        artifact@.len() > UQFF_QUANT_TYPE_OFFSET,
    ensures
        r == artifact@[UQFF_QUANT_TYPE_OFFSET as int],
{
    artifact[UQFF_QUANT_TYPE_OFFSET]
}

/// A serialised tensor, with how many times smaller its format makes the weights.
#[derive(Clone, Copy, Debug, PartialEq, Eq, Structural)]
pub enum UqffArtifact {
    Hqq { pack_factor: usize },
    Gguf { pack_factor: usize },
    Fp8 { pack_factor: usize },
    Unquant,
}

impl UqffArtifact {
    /// How many times smaller the weights are; an unquantised tensor is not packed.
    pub open spec fn factor(self) -> usize {
        match self {
            UqffArtifact::Hqq { pack_factor } => pack_factor,
            UqffArtifact::Gguf { pack_factor } => pack_factor,
            UqffArtifact::Fp8 { pack_factor } => pack_factor,
            UqffArtifact::Unquant => 1,
        }
    }

    pub fn pack_factor(&self) -> (r: usize)
        ensures
            r == self.factor(),
    {
        match self {
            UqffArtifact::Hqq { pack_factor } => *pack_factor,
            UqffArtifact::Gguf { pack_factor } => *pack_factor,
            UqffArtifact::Fp8 { pack_factor } => *pack_factor,
            UqffArtifact::Unquant => 1,
        }
    }
}

/// The sum of a list of numbers.
pub open spec fn sum(s: Seq<usize>) -> nat
    decreases s.len(),
{
    if s.len() == 0 {
        0
    } else {
        sum(s.drop_last()) + s.last() as nat
    }
}

/// The pack factors of a list of tensors.
pub open spec fn factors(artifacts: Seq<UqffArtifact>) -> Seq<usize> {
    artifacts.map_values(|a: UqffArtifact| a.factor())
}

/// A pack factor can be averaged over the tensors: there are some, and their factors add up to a
/// machine word.
pub open spec fn averages(artifacts: Seq<UqffArtifact>) -> bool {
    artifacts.len() > 0 && sum(factors(artifacts)) <= usize::MAX
}

/// The average pack factor, rounded down.
pub open spec fn average_factor(artifacts: Seq<UqffArtifact>) -> nat {
    sum(factors(artifacts)) / artifacts.len()
}

proof fn lemma_sum_of_prefix(s: Seq<usize>, n: int)
    requires
        0 <= n <= s.len(),
    ensures
        sum(s.take(n)) <= sum(s),
    decreases s.len(),
{
    if n == s.len() {
        assert(s.take(n) =~= s);
    } else {
        lemma_sum_of_prefix(s.drop_last(), n);
        assert(s.drop_last().take(n) =~= s.take(n));
    }
}

/// Adds up a list of numbers, unless the sum is no machine word.
pub fn checked_sum(numbers: &Vec<usize>) -> (r: Option<usize>)
    ensures
        match r {
            Some(total) => total == sum(numbers@),
            None => sum(numbers@) > usize::MAX,
        },
{
    let mut total: usize = 0;
    let mut i: usize = 0;
    while i < numbers.len()
        invariant
            i <= numbers.len(),
            total == sum(numbers@.take(i as int)),
        decreases numbers.len() - i,
    {
        let n: usize = numbers[i];
        proof {
            let next = numbers@.take(i + 1);
            assert(next.drop_last() =~= numbers@.take(i as int));
            assert(sum(next) == total + n);
            lemma_sum_of_prefix(numbers@, i + 1);
        }
        if total > usize::MAX - n {
            return None;
        }
        total = total + n;
        i = i + 1;
    }
    proof {
        assert(numbers@.take(i as int) =~= numbers@);
    }
    Some(total)
}

fn factors_of(artifacts: &Vec<UqffArtifact>) -> (r: Vec<usize>)
    ensures
        r@ == factors(artifacts@),
{
    let mut r: Vec<usize> = Vec::new();
    let mut i: usize = 0;
    while i < artifacts.len()
        invariant
            i <= artifacts.len(),
            r@ == factors(artifacts@).take(i as int),
        decreases artifacts.len() - i,
    {
        r.push(artifacts[i].pack_factor());
        i = i + 1;
        proof {
            assert(factors(artifacts@).take(i as int) =~= factors(artifacts@).take(i - 1).push(
                factors(artifacts@)[i - 1],
            ));
        }
    }
    proof {
        assert(factors(artifacts@).take(i as int) =~= factors(artifacts@));
    }
    r
}

/// Tests whether a pack factor can be averaged over the tensors.
pub fn does_average(artifacts: &Vec<UqffArtifact>) -> (r: bool)
    ensures
        r == averages(artifacts@),
{
    artifacts.len() > 0 && checked_sum(&factors_of(artifacts)).is_some()
}

/// Averages the pack factor over the tensors.
pub fn weight_pack_factor(artifacts: &Vec<UqffArtifact>) -> (r: usize)
    requires
        averages(artifacts@),
    ensures
        r == average_factor(artifacts@),
{
    let total: usize = checked_sum(&factors_of(artifacts)).unwrap();
    total / artifacts.len()
}

/// The size of a model: that of its layers, and of what belongs to no layer.
pub open spec fn model_size(layer_sizes: Seq<usize>, non_mapped: usize) -> nat {
    sum(layer_sizes) + non_mapped as nat
}

/// Adds up the size of a model, unless it is no machine word.
pub fn checked_model_size(layer_sizes: &Vec<usize>, non_mapped: usize) -> (r: Option<usize>)
    ensures
        match r {
            Some(total) => total == model_size(layer_sizes@, non_mapped),
            None => model_size(layer_sizes@, non_mapped) > usize::MAX,
        },
{
    match checked_sum(layer_sizes) {
        Some(layers) => layers.checked_add(non_mapped),
        None => None,
    }
}

proof fn lemma_sum_at_least(s: Seq<usize>, low: nat)
    requires
        forall|i: int| 0 <= i < s.len() ==> #[trigger] s[i] >= low,
    ensures
        sum(s) >= low * s.len(),
    decreases s.len(),
{
    if s.len() > 0 {
        lemma_sum_at_least(s.drop_last(), low);
        assert(low * s.len() == low * (s.len() - 1) + low) by (nonlinear_arith)
            requires
                s.len() > 0,
        ;
    }
}

proof fn lemma_sum_at_most(s: Seq<usize>, high: nat)
    requires
        forall|i: int| 0 <= i < s.len() ==> #[trigger] s[i] <= high,
    ensures
        sum(s) <= high * s.len(),
    decreases s.len(),
{
    if s.len() > 0 {
        lemma_sum_at_most(s.drop_last(), high);
        assert(high * s.len() == high * (s.len() - 1) + high) by (nonlinear_arith)
            requires
                s.len() > 0,
        ;
    }
}

/// The average pack factor lies between the smallest and the largest one.
pub proof fn law_average_factor_is_between(artifacts: Seq<UqffArtifact>, low: nat, high: nat)
    requires
        averages(artifacts),
        forall|i: int| 0 <= i < artifacts.len() ==> low <= (#[trigger] artifacts[i]).factor() <= high,
    ensures
        low <= average_factor(artifacts) <= high,
{
    let f = factors(artifacts);
    let n = artifacts.len();
    assert forall|i: int| 0 <= i < f.len() implies low <= #[trigger] f[i] <= high by {
        assert(low <= artifacts[i].factor() <= high);
    }
    lemma_sum_at_least(f, low);
    lemma_sum_at_most(f, high);
    let total = sum(f);
    assert(low <= total / n <= high) by (nonlinear_arith)
        requires
            low * n <= total <= high * n,
            n > 0,
    ;
}

/// A tensor that is quantised counts with the pack factor that it holds, whatever its format, and
/// one that is not counts once.
pub proof fn law_tensor_counts_with_its_factor(pack_factor: usize)
    ensures
        (UqffArtifact::Hqq { pack_factor }).factor() == pack_factor,
        (UqffArtifact::Gguf { pack_factor }).factor() == pack_factor,
        (UqffArtifact::Fp8 { pack_factor }).factor() == pack_factor,
        UqffArtifact::Unquant.factor() == 1,
{
}

/// Tensors that are all quantised alike have their own pack factor on average, whatever their
/// formats; tensors that are not quantised are as large as they are.
pub proof fn law_like_tensors_average_to_their_factor(artifacts: Seq<UqffArtifact>, k: usize)
    requires
        averages(artifacts),
    ensures
        (forall|i: int|
            0 <= i < artifacts.len() ==> {
                ||| #[trigger] artifacts[i] == (UqffArtifact::Hqq { pack_factor: k })
                ||| artifacts[i] == (UqffArtifact::Gguf { pack_factor: k })
                ||| artifacts[i] == (UqffArtifact::Fp8 { pack_factor: k })
            }) ==> average_factor(artifacts) == k,
        (forall|i: int| 0 <= i < artifacts.len() ==> #[trigger] artifacts[i] == UqffArtifact::Unquant)
            ==> average_factor(artifacts) == 1,
{
    if forall|i: int|
        0 <= i < artifacts.len() ==> {
            ||| #[trigger] artifacts[i] == (UqffArtifact::Hqq { pack_factor: k })
            ||| artifacts[i] == (UqffArtifact::Gguf { pack_factor: k })
            ||| artifacts[i] == (UqffArtifact::Fp8 { pack_factor: k })
        } {
        law_average_factor_is_between(artifacts, k as nat, k as nat);
    }
    if forall|i: int| 0 <= i < artifacts.len() ==> #[trigger] artifacts[i] == UqffArtifact::Unquant {
        law_average_factor_is_between(artifacts, 1, 1);
    }
}

/// One more number adds itself to a sum, and nothing sums up to nothing.
pub proof fn law_sum_adds_every_number(s: Seq<usize>, n: usize)
    ensures
        sum(Seq::<usize>::empty()) == 0,
        sum(s.push(n)) == sum(s) + n,
        model_size(s, n) == sum(s) + n,
{
    assert(s.push(n).drop_last() =~= s);
}

/// The average is what each tensor would have to count with to make up the whole, as far as whole
/// numbers allow: one more tensor adds its own factor to what is averaged.
pub proof fn law_average_shares_out_the_whole(
    artifacts: Seq<UqffArtifact>,
    one: UqffArtifact,
    pack_factor: usize,
)
    requires
        artifacts.len() > 0,
    ensures
        average_factor(artifacts) * artifacts.len() <= sum(factors(artifacts)),
        sum(factors(artifacts)) < (average_factor(artifacts) + 1) * artifacts.len(),
        one == (UqffArtifact::Hqq { pack_factor }) || one == (UqffArtifact::Gguf { pack_factor })
            || one == (UqffArtifact::Fp8 { pack_factor }) ==> sum(factors(artifacts.push(one))) == sum(
            factors(artifacts),
        ) + pack_factor,
        sum(factors(artifacts.push(UqffArtifact::Unquant))) == sum(factors(artifacts)) + 1,
        averages(artifacts) <==> sum(factors(artifacts)) <= usize::MAX,
        !averages(Seq::<UqffArtifact>::empty()),
{
    let total = sum(factors(artifacts));
    let n = artifacts.len();
    assert((total / n) * n <= total && total < (total / n + 1) * n) by (nonlinear_arith)
        requires
            n > 0,
    ;
    assert(factors(artifacts.push(one)) =~= factors(artifacts).push(one.factor()));
    law_sum_adds_every_number(factors(artifacts), one.factor());
    let plain = UqffArtifact::Unquant;
    assert(factors(artifacts.push(plain)) =~= factors(artifacts).push(plain.factor()));
    law_sum_adds_every_number(factors(artifacts), plain.factor());
}

} // verus!

use vstd::prelude::*;

verus! {

/// The sum 0*0 + 1*1 + ... + (n-1)*(n-1) of the squares of the
/// natural numbers below `n`.
pub open spec fn sum_of_squares_below(n: nat) -> nat
    decreases n,
{
    if n == 0 {
        0
    } else {
        (sum_of_squares_below((n - 1) as nat) + (n - 1) * (n - 1)) as nat
    }
}

proof fn lemma_sum_of_squares_below_monotonic(m: nat, n: nat)
    requires
        m <= n,
    ensures
        sum_of_squares_below(m) <= sum_of_squares_below(n),
    decreases n,
{
    if m < n {
        lemma_sum_of_squares_below_monotonic(m, (n - 1) as nat);
    }
}

proof fn lemma_sum_of_squares_below_ten()
    ensures
        sum_of_squares_below(10) == 285,
{
    assert(sum_of_squares_below(0) == 0);
    assert(sum_of_squares_below(1) == 0);
    assert(sum_of_squares_below(2) == 1);
    assert(sum_of_squares_below(3) == 5);
    assert(sum_of_squares_below(4) == 14);
    assert(sum_of_squares_below(5) == 30);
    assert(sum_of_squares_below(6) == 55);
    assert(sum_of_squares_below(7) == 91);
    assert(sum_of_squares_below(8) == 140);
    assert(sum_of_squares_below(9) == 204);
}

/// Sums the squares of the integers in 0..10; the total is 285.
pub fn sum_squares() -> (r: u32)
    ensures
        r == sum_of_squares_below(10),
        r == 285,
{
    let mut sum: u32 = 0;
    for x in 0..10u32
        invariant
            sum == sum_of_squares_below(x as nat),
            sum <= 285,
    {
        proof {
            lemma_sum_of_squares_below_monotonic((x + 1) as nat, 10);
            lemma_sum_of_squares_below_ten();
        }
        sum = sum + x * x;
    }
    proof {
        lemma_sum_of_squares_below_ten();
    }
    sum
}

/// Replaces every element of the vector with its own square, in place,
/// keeping the length and the order of the elements.
pub fn square_vector(numbers: &mut Vec<u32>)
    requires
        forall|i: int|
            0 <= i < old(numbers)@.len() ==> old(numbers)@[i] * old(numbers)@[i] <= u32::MAX,
    ensures
        final(numbers)@.len() == old(numbers)@.len(),
        forall|i: int|
            0 <= i < old(numbers)@.len() ==> final(numbers)@[i] == old(numbers)@[i] * old(
                numbers,
            )@[i],
{
    let n = numbers.len();
    let mut i: usize = 0;
    while i < n
        invariant
            n == old(numbers)@.len(),
            numbers@.len() == n,
            i <= n,
            forall|j: int| 0 <= j < i ==> numbers@[j] == old(numbers)@[j] * old(numbers)@[j],
            forall|j: int| i <= j < n ==> numbers@[j] == old(numbers)@[j],
            forall|j: int| 0 <= j < n ==> old(numbers)@[j] * old(numbers)@[j] <= u32::MAX,
        decreases n - i,
    {
        let v = numbers[i];
        numbers[i] = v * v;
        i = i + 1;
    }
}

/// Collects the even values below 10, in ascending order: 0, 2, 4, 6, 8.
pub fn even_values() -> (r: Vec<u32>)
    ensures
        r@.len() == 5,
        forall|i: int| 0 <= i < 5 ==> r@[i] == 2 * i,
{
    let mut evens: Vec<u32> = Vec::new();
    for x in 0..10u32
        invariant
            evens@.len() == (x + 1) / 2,
            forall|i: int| 0 <= i < evens@.len() ==> evens@[i] == 2 * i,
    {
        if x % 2 == 0 {
            evens.push(x);
        }
    }
    evens
}

} // verus!

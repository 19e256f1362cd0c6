//! Number-walk helpers: parity, the fizz-buzz classification, and the
//! sum and largest element of a list.

use vstd::prelude::*;

verus! {

/// Tells whether a number is even.
pub fn is_even(n: i32) -> (r: bool)
    ensures
        r == (n % 2 == 0),
{
    if n % 2 == 0 {
        return true;
    }
    return false;
}

/// Which of the fizz-buzz lines a number earns.
#[derive(Clone, Copy, Debug, PartialEq, Eq)]
pub enum FizzBuzzKind {
    FizzBuzz,
    Fizz,
    Buzz,
    Plain,
}

/// The fizz-buzz class of a number, by divisibility by three and five.
pub open spec fn fizzbuzz_class(n: int) -> FizzBuzzKind {
    if n % 3 == 0 && n % 5 == 0 {
        FizzBuzzKind::FizzBuzz
    } else if n % 3 == 0 {
        FizzBuzzKind::Fizz
    } else if n % 5 == 0 {
        FizzBuzzKind::Buzz
    } else {
        FizzBuzzKind::Plain
    }
}

/// Classifies a number for the fizz-buzz walk.
pub fn fizzbuzz_kind(n: i32) -> (r: FizzBuzzKind)
    ensures
        r == fizzbuzz_class(n as int),
{
    if n % 3 == 0 && n % 5 == 0 {
        FizzBuzzKind::FizzBuzz
    } else if n % 3 == 0 {
        FizzBuzzKind::Fizz
    } else if n % 5 == 0 {
        FizzBuzzKind::Buzz
    } else {
        FizzBuzzKind::Plain
    }
}

/// Sum of a sequence of integers.
pub open spec fn sum_of(s: Seq<int>) -> int
    decreases s.len(),
{
    if s.len() == 0 {
        0
    } else {
        sum_of(s.drop_last()) + s.last()
    }
}

/// Walks a list once and reports its sum and its largest element; the
/// largest is absent exactly when the list is empty.
pub fn sum_and_largest(values: &Vec<i32>) -> (r: (i64, Option<i32>))
    requires
        values.len() <= 0x1_0000_0000,
    ensures
        r.0 == sum_of(values@.map_values(|x: i32| x as int)),
        r.1 is Some <==> values.len() > 0,
        r.1 matches Some(m) ==> values@.contains(m) && (forall|j: int|
            0 <= j < values@.len() ==> values@[j] <= m),
{
    let ghost ints = values@.map_values(|x: i32| x as int);
    let mut sum: i64 = 0;
    let mut largest: Option<i32> = None;
    let mut i: usize = 0;
    while i < values.len()
        invariant
            i <= values.len(),
            values.len() <= 0x1_0000_0000,
            ints == values@.map_values(|x: i32| x as int),
            sum == sum_of(ints.take(i as int)),
            (i as int) * (-0x8000_0000) <= sum <= (i as int) * 0x7FFF_FFFF,
            largest is Some <==> i > 0,
            largest matches Some(m) ==> values@.take(i as int).contains(m) && (forall|j: int|
                0 <= j < i ==> values@[j] <= m),
        decreases values.len() - i,
    {
        let x = values[i];
        proof {
            assert(ints.take(i + 1).drop_last() =~= ints.take(i as int));
            assert(ints.take(i + 1).last() == x as int);
        }
        sum = sum + (x as i64);
        largest = match largest {
            None => Some(x),
            Some(m) => if x > m {
                Some(x)
            } else {
                Some(m)
            },
        };
        i = i + 1;
        proof {
            match largest {
                Some(m) => {
                    assert(values@.take(i as int).contains(m)) by {
                        let prior = values@.take(i as int - 1);
                        if prior.contains(m) {
                            let k = choose|k: int| 0 <= k < prior.len() && prior[k] == m;
                            assert(values@.take(i as int)[k] == m);
                        } else {
                            assert(values@.take(i as int)[i - 1] == m);
                        }
                    }
                },
                None => {},
            }
        }
    }
    proof {
        assert(ints.take(i as int) =~= ints);
        assert(values@.take(i as int) =~= values@);
    }
    (sum, largest)
}

} // verus!

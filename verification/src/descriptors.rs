//! The file descriptors that the init closes before it spawns the workload.

use vstd::prelude::*;

verus! {

/// A descriptor the init inherited and does not keep: anything but standard
/// input, output and error.
pub open spec fn is_inherited(fd: i32) -> bool {
    fd >= 3
}

/// Of the descriptors open in the init, those to close before the spawn:
/// every one from 3 up, in the order given.
pub fn descriptors_to_close(open: &Vec<i32>) -> (close: Vec<i32>)
    ensures
        close@ == open@.filter(|fd: i32| is_inherited(fd)),
        close@ == open@.filter(|fd: i32| fd >= 3),
        forall|fd: i32| open@.contains(fd) && fd >= 3 ==> close@.contains(fd),
        forall|fd: i32| close@.contains(fd) ==> fd >= 3 && open@.contains(fd),
{
    let mut close: Vec<i32> = Vec::new();
    for i in 0..open.len()
        invariant
            close@ == open@.take(i as int).filter(|fd: i32| fd >= 3),
            forall|j: int| 0 <= j < close@.len() ==> #[trigger] close@[j] >= 3 && open@.contains(close@[j]),
            forall|j: int| 0 <= j < i && #[trigger] open@[j] >= 3 ==> close@.contains(open@[j]),
    {
        proof {
            reveal(Seq::filter);
            assert(open@.take(i + 1).drop_last() =~= open@.take(i as int));
        }
        let ghost before = close@;
        if open[i] >= 3 {
            close.push(open[i]);
            proof {
                assert(close@[before.len() as int] == open@[i as int]);
                assert forall|j: int| 0 <= j < i && #[trigger] open@[j] >= 3 implies close@.contains(open@[j]) by {
                    let k = choose|k: int| 0 <= k < before.len() && before[k] == open@[j];
                    assert(close@[k] == open@[j]);
                }
            }
        }
        proof {
            assert(open@.contains(open@[i as int]));
        }
    }
    assert(open@.take(open@.len() as int) =~= open@);
    assert((|fd: i32| is_inherited(fd)) =~= (|fd: i32| fd >= 3));
    assert forall|fd: i32| open@.contains(fd) && fd >= 3 implies close@.contains(fd) by {
        let j = choose|j: int| 0 <= j < open@.len() && open@[j] == fd;
    }
    assert forall|fd: i32| close@.contains(fd) implies fd >= 3 && open@.contains(fd) by {
        let j = choose|j: int| 0 <= j < close@.len() && close@[j] == fd;
    }
    close
}

} // verus!

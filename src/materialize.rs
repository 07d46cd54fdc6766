use vstd::prelude::*;

use crate::disk::{is_dir, materialize_effect, run_steps, Disk, FileStep, Node};

verus! {

/// The steps that give the file `target` exactly the content `tpd`, where
/// `exists` says whether something stands at `target` now: a true overwrite
/// deletes first, then creates.
pub fn write_text(tpd: String, target: String, exists: bool) -> (r: Vec<FileStep>)
    ensures
        exists ==> r@ == seq![FileStep::Remove(target), FileStep::Write(target, tpd)],
        !exists ==> r@ == seq![FileStep::Write(target, tpd)],
        forall|d: Disk| #[trigger]
            d.contains_key(target@) == exists ==> run_steps(d, r@) == materialize_effect(
                d,
                target@,
                tpd@,
            ),
{
    let mut r: Vec<FileStep> = Vec::new();
    if exists {
        r.push(FileStep::Remove(target.clone()));
    }
    r.push(FileStep::Write(target, tpd));
    assert forall|d: Disk| #[trigger]
        d.contains_key(target@) == exists implies run_steps(d, r@) == materialize_effect(
        d,
        target@,
        tpd@,
    ) by {
        reveal_with_fuel(run_steps, 3);
        if exists {
            let s = r@.drop_first();
            assert(s =~= seq![r@[1]]);
            assert(s.drop_first() =~= Seq::<FileStep>::empty());
            if !is_dir(d, target@) {
                let d1 = d.remove(target@);
                assert(!is_dir(d1, target@));
                assert(d1.insert(target@, Node::File(tpd@)) =~= d.insert(target@, Node::File(tpd@)));
            }
        } else {
            assert(r@.drop_first() =~= Seq::<FileStep>::empty());
        }
    }
    r
}

/// Materializing content over a file leaves exactly that content at the path,
/// and no other path appears or disappears.
pub proof fn lemma_materialize_overwrite(d: Disk, p: Seq<char>, old_content: Seq<char>, content: Seq<char>)
    requires
        d.contains_key(p),
        d[p] == Node::File(old_content),
    ensures
        materialize_effect(d, p, content).1 is Ok,
        materialize_effect(d, p, content).0[p] == Node::File(content),
        materialize_effect(d, p, content).0.dom() == d.dom(),
        forall|q: Seq<char>| q != p && #[trigger] d.contains_key(q)
            ==> materialize_effect(d, p, content).0[q] == d[q],
{
    assert(materialize_effect(d, p, content).0.dom() =~= d.dom());
}

/// Materializing the same content twice leaves the disk as once does.
pub proof fn lemma_materialize_idempotent(d: Disk, p: Seq<char>, content: Seq<char>)
    ensures
        materialize_effect(materialize_effect(d, p, content).0, p, content) == materialize_effect(
            d,
            p,
            content,
        ),
{
    let d1 = materialize_effect(d, p, content).0;
    if !is_dir(d, p) {
        assert(d1.insert(p, Node::File(content)) =~= d1);
    }
}

} // verus!

verus! {

/// The steps that leave an empty file at `filename`, where `exists` says
/// whether something stands there now.
pub fn create_file(filename: String, exists: bool) -> (r: Vec<FileStep>)
    ensures
        exists ==> r@.len() == 2 && r@[0] == FileStep::Remove(filename),
        !exists ==> r@.len() == 1,
        r@.last() is Write && r@.last()->Write_0 == filename && r@.last()->Write_1@.len() == 0,
        forall|d: Disk| #[trigger]
            d.contains_key(filename@) == exists ==> run_steps(d, r@) == materialize_effect(
                d,
                filename@,
                Seq::empty(),
            ),
{
    write_text(String::new(), filename, exists)
}

} // verus!

use vstd::prelude::*;

verus! {

// All attachments of a chunk of mails are uploaded in one request; the
// server answers with one entry per attachment, in upload order. These
// functions flatten the attachments of the chunk for that request and hand
// the answers back to the mail that each attachment belongs to.

/// The contents of each inner vector.
pub open spec fn group_views<T>(groups: Seq<Vec<T>>) -> Seq<Seq<T>> {
    groups.map_values(|g: Vec<T>| g@)
}

/// The values behind some references.
pub open spec fn derefs<T>(refs: Seq<&T>) -> Seq<T> {
    refs.map_values(|x: &T| *x)
}

/// The length of each group.
pub open spec fn group_lengths<T>(groups: Seq<Seq<T>>) -> Seq<usize> {
    groups.map_values(|g: Seq<T>| g.len() as usize)
}

/// The sum of the counts.
pub open spec fn total(counts: Seq<usize>) -> nat
    decreases counts.len(),
{
    if counts.len() == 0 {
        0
    } else {
        counts[0] as nat + total(counts.drop_first())
    }
}

/// `flat` cut into consecutive pieces of the given lengths, from the front.
pub open spec fn regroup<T>(flat: Seq<T>, counts: Seq<usize>) -> Seq<Seq<T>>
    decreases counts.len(),
{
    if counts.len() == 0 {
        Seq::empty()
    } else {
        seq![flat.take(counts[0] as int)] + regroup(flat.skip(counts[0] as int), counts.drop_first())
    }
}

/// Number of attachments of each mail of a chunk.
pub fn attachment_counts<T>(per_mail: &Vec<Vec<T>>) -> (r: Vec<usize>)
    ensures
        r@ == group_lengths(group_views(per_mail@)),
        forall|k: int| 0 <= k < r@.len() ==> #[trigger] r@[k] == per_mail@[k]@.len(),
{
    let mut r: Vec<usize> = Vec::new();
    let mut i: usize = 0;
    while i < per_mail.len()
        invariant
            i <= per_mail@.len(),
            r@.len() == i,
            forall|k: int| 0 <= k < i ==> r@[k] == per_mail@[k]@.len(),
        decreases per_mail@.len() - i,
    {
        r.push(per_mail[i].len());
        i = i + 1;
    }
    assert(r@ =~= group_lengths(group_views(per_mail@)));
    r
}

/// All attachments of a chunk in one list: those of the first mail, then
/// those of the second, and so on.
pub fn flatten_per_mail<T>(per_mail: &Vec<Vec<T>>) -> (r: Vec<&T>)
    ensures
        derefs(r@) == group_views(per_mail@).flatten(),
{
    let mut r: Vec<&T> = Vec::new();
    let mut i: usize = 0;
    let ghost views = group_views(per_mail@);
    while i < per_mail.len()
        invariant
            i <= per_mail@.len(),
            views == group_views(per_mail@),
            derefs(r@) == views.take(i as int).flatten(),
        decreases per_mail@.len() - i,
    {
        let group = &per_mail[i];
        let mut j: usize = 0;
        let ghost before = derefs(r@);
        while j < group.len()
            invariant
                j <= group@.len(),
                derefs(r@) == before + group@.take(j as int),
            decreases group@.len() - j,
        {
            let ghost old_r = r@;
            let item = &group[j];
            assert(*item == group@[j as int]);
            r.push(item);
            assert(r@ == old_r.push(item));
            assert(derefs(r@) =~= derefs(old_r).push(group@[j as int]));
            assert(group@.take(j + 1) =~= group@.take(j as int).push(group@[j as int]));
            j = j + 1;
            assert(derefs(r@) =~= before + group@.take(j as int));
        }
        proof {
            assert(group@.take(group@.len() as int) =~= group@);
            assert(views[i as int] == group@);
            assert(views.take(i + 1) =~= views.take(i as int).push(group@));
            views.take(i as int).lemma_flatten_push(group@);
        }
        i = i + 1;
    }
    assert(views.take(per_mail@.len() as int) =~= views);
    r
}

/// Cuts the answers for a flattened chunk back into one list per mail:
/// the first `counts[0]` answers belong to the first mail, the next
/// `counts[1]` to the second, and so on. Answers beyond the counts are
/// dropped.
pub fn split_by_counts<T>(flat: Vec<T>, counts: &Vec<usize>) -> (r: Vec<Vec<T>>)
    requires
        total(counts@) <= flat@.len(),
    ensures
        group_views(r@) == regroup(flat@, counts@),
{
    let ghost answers = flat@;
    let mut rest = flat;
    let mut r: Vec<Vec<T>> = Vec::new();
    let mut i: usize = 0;
    assert(counts@.skip(0) =~= counts@);
    assert(group_views(r@) =~= Seq::<Seq<T>>::empty());
    assert(group_views(r@) + regroup(rest@, counts@) =~= regroup(rest@, counts@));
    while i < counts.len()
        invariant
            i <= counts@.len(),
            total(counts@.skip(i as int)) <= rest@.len(),
            group_views(r@) + regroup(rest@, counts@.skip(i as int)) == regroup(answers, counts@),
        decreases counts@.len() - i,
    {
        let count = counts[i];
        let ghost old_rest = rest@;
        let ghost old_r = group_views(r@);
        assert(counts@.skip(i as int).drop_first() =~= counts@.skip(i + 1));
        let tail = rest.split_off(count);
        let group = rest;
        rest = tail;
        r.push(group);
        proof {
            assert(group_views(r@) =~= old_r + seq![old_rest.take(count as int)]);
            assert(rest@ =~= old_rest.skip(count as int));
        }
        i = i + 1;
        assert(group_views(r@) + regroup(rest@, counts@.skip(i as int)) =~= regroup(answers, counts@));
    }
    assert(counts@.skip(counts@.len() as int) =~= Seq::<usize>::empty());
    assert(group_views(r@) =~= regroup(answers, counts@));
    r
}

/// The total of the lengths of some groups is the length of their flattening.
pub proof fn lemma_total_of_lengths<T>(groups: Seq<Seq<T>>)
    requires
        forall|i: int| 0 <= i < groups.len() ==> #[trigger] groups[i].len() <= usize::MAX,
    ensures
        total(group_lengths(groups)) == groups.flatten().len(),
    decreases groups.len(),
{
    if groups.len() > 0 {
        assert(group_lengths(groups).drop_first() =~= group_lengths(groups.drop_first()));
        assert(groups[0].len() <= usize::MAX);
        assert(groups.first() == groups[0]);
        lemma_total_of_lengths(groups.drop_first());
    }
}

/// Cutting the flattened attachments of a chunk by the attachment counts of
/// its mails gives back each mail's own attachments, in order: answers that
/// come back in upload order reach the mail they belong to.
pub proof fn lemma_regroup_flatten<T>(groups: Seq<Seq<T>>)
    requires
        forall|i: int| 0 <= i < groups.len() ==> #[trigger] groups[i].len() <= usize::MAX,
    ensures
        regroup(groups.flatten(), group_lengths(groups)) == groups,
    decreases groups.len(),
{
    if groups.len() == 0 {
        assert(regroup(groups.flatten(), group_lengths(groups)) =~= groups);
    } else {
        let first = groups[0];
        let rest = groups.drop_first();
        let flat = groups.flatten();
        assert(groups.first() == first);
        assert(flat == first + rest.flatten());
        assert(flat.take(first.len() as int) =~= first);
        assert(flat.skip(first.len() as int) =~= rest.flatten());
        assert(group_lengths(groups).drop_first() =~= group_lengths(rest));
        assert(first.len() <= usize::MAX);
        assert(group_lengths(groups)[0] == first.len());
        lemma_regroup_flatten(rest);
        assert(regroup(groups.flatten(), group_lengths(groups)) =~= groups);
    }
}

/// Mapping each group and then flattening is flattening and then mapping.
pub proof fn lemma_flatten_map<T, U>(groups: Seq<Seq<T>>, f: spec_fn(T) -> U)
    ensures
        groups.map_values(|g: Seq<T>| g.map_values(f)).flatten() == groups.flatten().map_values(f),
    decreases groups.len(),
{
    let mapped = groups.map_values(|g: Seq<T>| g.map_values(f));
    if groups.len() == 0 {
        assert(mapped.flatten() =~= groups.flatten().map_values(f));
    } else {
        let rest = groups.drop_first();
        lemma_flatten_map(rest, f);
        assert(mapped.drop_first() =~= rest.map_values(|g: Seq<T>| g.map_values(f)));
        assert(mapped.first() == groups.first().map_values(f));
        assert(groups.flatten() == groups.first() + rest.flatten());
        assert(mapped.flatten() == mapped.first() + mapped.drop_first().flatten());
        assert(mapped.flatten() =~= groups.flatten().map_values(f));
    }
}

/// When the server answers each attachment of the flattened chunk in turn
/// (the answer to an attachment `a` being `answer(a)`), cutting the answers
/// by the attachment counts of the mails gives each mail the answers to its
/// own attachments, in their order.
pub proof fn lemma_answers_reach_their_mail<T, U>(groups: Seq<Seq<T>>, answer: spec_fn(T) -> U)
    requires
        forall|i: int| 0 <= i < groups.len() ==> #[trigger] groups[i].len() <= usize::MAX,
    ensures
        regroup(groups.flatten().map_values(answer), group_lengths(groups))
            == groups.map_values(|g: Seq<T>| g.map_values(answer)),
{
    let mapped = groups.map_values(|g: Seq<T>| g.map_values(answer));
    lemma_flatten_map(groups, answer);
    assert(group_lengths(mapped) =~= group_lengths(groups));
    assert forall|i: int| 0 <= i < mapped.len() implies #[trigger] mapped[i].len() <= usize::MAX by {
        assert(mapped[i].len() == groups[i].len());
    }
    lemma_regroup_flatten(mapped);
}

/// Pairs of equally placed items, as long as the shorter sequence.
pub open spec fn zip_seq<A, B>(a: Seq<A>, b: Seq<B>) -> Seq<(A, B)> {
    Seq::new(if a.len() <= b.len() { a.len() } else { b.len() }, |i: int| (a[i], b[i]))
}

/// Zipping pairs the items at each position of both sequences, and stops
/// only at the end of the shorter one.
pub proof fn lemma_zip_seq<A, B>(a: Seq<A>, b: Seq<B>)
    ensures
        zip_seq(a, b).len() == (if a.len() <= b.len() { a.len() } else { b.len() }),
        forall|i: int| 0 <= i < zip_seq(a, b).len() ==> #[trigger] zip_seq(a, b)[i] == (a[i], b[i]),
{
}

/// Pairs the items of two lists by position; items past the end of the
/// shorter list are dropped.
pub fn zip_shortest<A, B>(a: Vec<A>, b: Vec<B>) -> (r: Vec<(A, B)>)
    ensures
        r@ == zip_seq(a@, b@),
        r@.len() == (if a@.len() <= b@.len() { a@.len() } else { b@.len() }),
        forall|i: int| 0 <= i < r@.len() ==> #[trigger] r@[i] == (a@[i], b@[i]),
{
    let ghost a0 = a@;
    let ghost b0 = b@;
    let mut a = a;
    let mut b = b;
    let mut r: Vec<(A, B)> = Vec::new();
    while a.len() > 0 && b.len() > 0
        invariant
            r@.len() <= a0.len(),
            r@.len() <= b0.len(),
            a@ == a0.skip(r@.len() as int),
            b@ == b0.skip(r@.len() as int),
            forall|k: int| 0 <= k < r@.len() ==> r@[k] == (a0[k], b0[k]),
        decreases a@.len(),
    {
        let x = a.remove(0);
        let y = b.remove(0);
        r.push((x, y));
        assert(a@ =~= a0.skip(r@.len() as int));
        assert(b@ =~= b0.skip(r@.len() as int));
    }
    assert(r@ =~= zip_seq(a0, b0));
    r
}

/// For each mail of a chunk, the file data, the metadata and the upload
/// answers of its attachments, paired by position: per mail as many
/// attachments as the shortest of its three lists has, and as many mails as
/// the shortest of the three outer lists has.
pub fn zip_attachment_parts<A, B, C>(
    file_data: Vec<Vec<A>>,
    meta_data: Vec<Vec<B>>,
    answers: Vec<Vec<C>>,
) -> (r: Vec<Vec<(A, (B, C))>>)
    ensures
        r@.len() == zip_seq(file_data@, zip_seq(meta_data@, answers@)).len(),
        forall|i: int|
            0 <= i < r@.len() ==> #[trigger] r@[i]@ == zip_seq(
                file_data@[i]@,
                zip_seq(meta_data@[i]@, answers@[i]@),
            ),
        r@.len() <= file_data@.len() && r@.len() <= meta_data@.len() && r@.len() <= answers@.len(),
        r@.len() == file_data@.len() || r@.len() == meta_data@.len() || r@.len() == answers@.len(),
        forall|i: int|
            0 <= i < r@.len() ==> {
                &&& (#[trigger] r@[i])@.len() <= file_data@[i]@.len()
                &&& r@[i]@.len() <= meta_data@[i]@.len()
                &&& r@[i]@.len() <= answers@[i]@.len()
                &&& (r@[i]@.len() == file_data@[i]@.len() || r@[i]@.len() == meta_data@[i]@.len()
                    || r@[i]@.len() == answers@[i]@.len())
                &&& forall|j: int|
                    0 <= j < r@[i]@.len() ==> #[trigger] r@[i]@[j] == (
                        file_data@[i]@[j],
                        (meta_data@[i]@[j], answers@[i]@[j]),
                    )
            },
{
    let per_mail = zip_shortest(file_data, zip_shortest(meta_data, answers));
    let ghost p0 = per_mail@;
    let mut per_mail = per_mail;
    let mut r: Vec<Vec<(A, (B, C))>> = Vec::new();
    while per_mail.len() > 0
        invariant
            r@.len() <= p0.len(),
            per_mail@ == p0.skip(r@.len() as int),
            forall|k: int|
                0 <= k < r@.len() ==> #[trigger] r@[k]@ == zip_seq(
                    p0[k].0@,
                    zip_seq(p0[k].1.0@, p0[k].1.1@),
                ),
        decreases per_mail@.len(),
    {
        let (files, (metas, tokens)) = per_mail.remove(0);
        let inner = zip_shortest(files, zip_shortest(metas, tokens));
        r.push(inner);
        assert(per_mail@ =~= p0.skip(r@.len() as int));
    }
    proof {
        assert forall|i: int| 0 <= i < r@.len() implies {
            &&& (#[trigger] r@[i])@.len() <= file_data@[i]@.len()
            &&& r@[i]@.len() <= meta_data@[i]@.len()
            &&& r@[i]@.len() <= answers@[i]@.len()
            &&& (r@[i]@.len() == file_data@[i]@.len() || r@[i]@.len() == meta_data@[i]@.len()
                || r@[i]@.len() == answers@[i]@.len())
            &&& forall|j: int|
                0 <= j < r@[i]@.len() ==> #[trigger] r@[i]@[j] == (
                    file_data@[i]@[j],
                    (meta_data@[i]@[j], answers@[i]@[j]),
                )
        } by {
            lemma_zip_seq(file_data@[i]@, zip_seq(meta_data@[i]@, answers@[i]@));
            lemma_zip_seq(meta_data@[i]@, answers@[i]@);
        }
        lemma_zip_seq(file_data@, zip_seq(meta_data@, answers@));
        lemma_zip_seq(meta_data@, answers@);
    }
    r
}

/// The bookkeeping of a chunk after its attachments were uploaded: the
/// answers, one per attachment in upload order, are cut by the number of
/// attachments of each mail; each mail's file data, metadata and answers are
/// paired by position; and each mail is paired with its attachments. The
/// attachments of a mail are its file data.
pub fn assign_upload_answers<M, A, B, C>(
    mails: Vec<M>,
    file_data: Vec<Vec<A>>,
    meta_data: Vec<Vec<B>>,
    answers: Vec<C>,
) -> (r: Vec<(M, Vec<(A, (B, C))>)>)
    requires
        total(group_lengths(group_views(file_data@))) <= answers@.len(),
    ensures
        r@.len() == zip_seq(mails@, zip_seq(file_data@, meta_data@)).len(),
        forall|i: int|
            0 <= i < r@.len() ==> {
                &&& (#[trigger] r@[i]).0 == mails@[i]
                &&& r@[i].1@ == zip_seq(
                    file_data@[i]@,
                    zip_seq(
                        meta_data@[i]@,
                        regroup(answers@, group_lengths(group_views(file_data@)))[i],
                    ),
                )
            },
        r@.len() <= mails@.len() && r@.len() <= file_data@.len() && r@.len() <= meta_data@.len(),
        r@.len() == mails@.len() || r@.len() == file_data@.len() || r@.len() == meta_data@.len(),
        mails@.len() == file_data@.len() && file_data@.len() == meta_data@.len() ==> r@.len()
            == mails@.len(),
        forall|i: int|
            0 <= i < r@.len() && file_data@[i]@.len() == meta_data@[i]@.len() ==> (
            #[trigger] r@[i]).1@.len() == file_data@[i]@.len(),
        forall|i: int|
            0 <= i < r@.len() ==> {
                &&& (#[trigger] r@[i]).1@.len() <= file_data@[i]@.len()
                &&& r@[i].1@.len() <= meta_data@[i]@.len()
                &&& (r@[i].1@.len() == file_data@[i]@.len() || r@[i].1@.len() == meta_data@[i]@.len())
                &&& forall|j: int|
                    0 <= j < r@[i].1@.len() ==> #[trigger] r@[i].1@[j] == (
                        file_data@[i]@[j],
                        (
                            meta_data@[i]@[j],
                            answers@[total(group_lengths(group_views(file_data@)).take(i)) + j],
                        ),
                    )
            },
{
    let ghost fd = file_data@;
    let ghost md = meta_data@;
    let counts = attachment_counts(&file_data);
    let ghost exec_counts = counts@;
    let per_mail_answers = split_by_counts(answers, &counts);
    proof {
        lemma_regroup_len(answers@, counts@);
    }
    let parts = zip_attachment_parts(file_data, meta_data, per_mail_answers);
    let r = zip_shortest(mails, parts);
    proof {
        let counts = group_lengths(group_views(fd));
        assert forall|i: int| 0 <= i < r@.len() implies {
            &&& (#[trigger] r@[i]).1@.len() <= fd[i]@.len()
            &&& r@[i].1@.len() <= md[i]@.len()
            &&& (r@[i].1@.len() == fd[i]@.len() || r@[i].1@.len() == md[i]@.len())
            &&& forall|j: int|
                0 <= j < r@[i].1@.len() ==> #[trigger] r@[i].1@[j] == (
                    fd[i]@[j],
                    (md[i]@[j], answers@[total(counts.take(i)) + j]),
                )
        } by {
            assert(r@[i].1 == parts@[i]);
            assert(per_mail_answers@[i]@ == group_views(per_mail_answers@)[i]);
            assert(exec_counts == counts);
            assert(counts[i] == fd[i]@.len());
            lemma_regroup_piece(answers@, counts, i);
            assert forall|j: int| 0 <= j < r@[i].1@.len() implies #[trigger] r@[i].1@[j] == (
                fd[i]@[j],
                (md[i]@[j], answers@[total(counts.take(i)) + j]),
            ) by {
                assert(parts@[i]@[j] == (fd[i]@[j], (md[i]@[j], per_mail_answers@[i]@[j])));
            }
        }
    }
    assert forall|i: int| 0 <= i < r@.len() implies {
        &&& (#[trigger] r@[i]).0 == mails@[i]
        &&& r@[i].1@ == zip_seq(
            fd[i]@,
            zip_seq(md[i]@, regroup(answers@, group_lengths(group_views(fd)))[i]),
        )
    } by {
        assert(parts@[i]@ == zip_seq(fd[i]@, zip_seq(md[i]@, per_mail_answers@[i]@)));
        assert(per_mail_answers@[i]@ == group_views(per_mail_answers@)[i]);
    }
    r
}

/// Each piece of a cut has its count as length and holds the items that
/// follow all earlier pieces, in order.
pub proof fn lemma_regroup_piece<T>(flat: Seq<T>, counts: Seq<usize>, i: int)
    requires
        total(counts) <= flat.len(),
        0 <= i < counts.len(),
    ensures
        regroup(flat, counts)[i].len() == counts[i],
        forall|j: int| 0 <= j < counts[i] ==> #[trigger] regroup(flat, counts)[i][j] == flat[total(counts.take(i)) + j],
        total(counts.take(i)) + counts[i] <= flat.len(),
    decreases i,
{
    let c0 = counts[0] as int;
    let rest = counts.drop_first();
    assert(total(counts) == c0 + total(rest));
    lemma_regroup_len(flat.skip(c0), rest);
    if i == 0 {
        assert(counts.take(0) =~= Seq::<usize>::empty());
        assert(total(Seq::<usize>::empty()) == 0);
        lemma_total_nonneg(rest);
    } else {
        lemma_regroup_piece(flat.skip(c0), rest, i - 1);
        assert(counts.take(i).drop_first() =~= rest.take(i - 1));
        assert(counts.take(i)[0] == counts[0]);
        assert(total(counts.take(i)) == c0 + total(rest.take(i - 1)));
        assert(regroup(flat, counts)[i] == regroup(flat.skip(c0), rest)[i - 1]);
        assert(rest[i - 1] == counts[i]);
    }
}

proof fn lemma_total_nonneg(counts: Seq<usize>)
    ensures
        total(counts) >= 0,
{
}

/// Cutting gives one piece per count.
pub proof fn lemma_regroup_len<T>(flat: Seq<T>, counts: Seq<usize>)
    ensures
        regroup(flat, counts).len() == counts.len(),
    decreases counts.len(),
{
    if counts.len() > 0 {
        lemma_regroup_len(flat.skip(counts[0] as int), counts.drop_first());
    }
}

} // verus!

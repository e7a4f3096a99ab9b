use vstd::prelude::*;
use crate::model::{iterated, stepped, Model, SolverType};
use crate::linalg::copied;
use crate::scalar::Scalar;
use crate::text::{comma_joined, join_with_commas, views_of};

verus! {

/// The mathematical content of a simulation: its configuration, the model in
/// its current state, and what has been recorded. Row `t` of `rows` holds the
/// value of every signal at the sample whose time is `time[t]`.
pub struct Recording<S, M> {
    pub simtime: S,
    pub delta_t: S,
    pub simsize: nat,
    pub solvertype: SolverType,
    pub model: M,
    pub time: Seq<S>,
    pub rows: Seq<Seq<S>>,
}

impl<S: Scalar, M: Model<S>> Recording<S, M> {
    /// The model is valid, there is at least the initial sample, and every
    /// sample has a time and one value for each signal.
    pub open spec fn wf(self) -> bool {
        &&& self.model.valid()
        &&& self.simsize >= 1
        &&& self.time.len() >= 1
        &&& self.time.len() == self.rows.len()
        &&& forall|t: int|
            0 <= t < self.rows.len() ==> (#[trigger] self.rows[t]).len() == self.model.signal_len()
    }

    /// The recorded values of signal `i`, oldest first.
    pub open spec fn series(self, i: int) -> Seq<S> {
        Seq::new(self.rows.len(), |t: int| self.rows[t][i])
    }

    /// The series recorded under `name`: the times under `time`, else the
    /// values of the first signal of that name, and nothing where no signal
    /// has it.
    pub open spec fn named(self, name: Seq<char>) -> Option<Seq<S>> {
        let i = first_named(self.model.names(), name, 0);
        if name == seq!['t', 'i', 'm', 'e'] {
            Some(self.time)
        } else if i < self.model.names().len() {
            Some(self.series(i))
        } else {
            None
        }
    }

    /// The derivative of the model, as a function of the probe state.
    pub open spec fn slope_fn(self) -> spec_fn(Seq<S>) -> Seq<S> {
        |x: Seq<S>| self.model.slope(x)
    }

    /// The state of the model `k` steps after its current one.
    pub open spec fn state_after(self, k: nat) -> Seq<S> {
        iterated(self.slope_fn(), self.model.state_of(), self.delta_t, self.solvertype, k)
    }

    /// The recording of a simulation before its run: the configuration and
    /// the initial sample, taken at time `nil` from the model as it is.
    pub open spec fn initial(simtime: S, delta_t: S, solvertype: SolverType, model: M) -> Self {
        Recording {
            simtime: simtime,
            delta_t: delta_t,
            simsize: sample_count(simtime, delta_t),
            solvertype: solvertype,
            model: model,
            time: seq![S::nil()],
            rows: seq![model.signals_at(model.state_of())],
        }
    }

    /// What a run makes of the recording `self`: the configuration and the
    /// earlier samples are kept, and `simsize - 1` samples follow them. The
    /// `k`-th of these has the time `k * delta_t` and the signals of the
    /// model in its state after `k` steps, and the model is left in its
    /// state after the last step, otherwise unchanged.
    pub open spec fn run_leads_to(self, next: Self) -> bool {
        &&& next.simtime == self.simtime
        &&& next.delta_t == self.delta_t
        &&& next.simsize == self.simsize
        &&& next.solvertype == self.solvertype
        &&& next.time.len() == self.time.len() + self.simsize - 1
        &&& next.rows.len() == self.rows.len() + self.simsize - 1
        &&& next.time.take(self.time.len() as int) == self.time
        &&& next.rows.take(self.rows.len() as int) == self.rows
        &&& forall|j: int|
            self.time.len() <= j < next.time.len() ==> #[trigger] next.time[j] == S::of_index(
                (j - self.time.len() + 1) as usize,
            ).times(self.delta_t)
        &&& forall|j: int|
            self.rows.len() <= j < next.rows.len() ==> #[trigger] next.rows[j]
                == self.model.signals_at(self.state_after((j - self.rows.len() + 1) as nat))
        &&& next.model.state_of() == self.state_after((self.simsize - 1) as nat)
        &&& next.model.names() == self.model.names()
        &&& next.model.signal_len() == self.model.signal_len()
        &&& forall|x: Seq<S>| #[trigger] next.model.slope(x) == self.model.slope(x)
        &&& forall|x: Seq<S>| #[trigger] next.model.signals_at(x) == self.model.signals_at(x)
    }
}

/// After the run of a new simulation every series is complete: the time
/// series and the series of each signal have exactly `simsize` entries, the
/// first sample is the initial one, and sample `k` has the time
/// `k * delta_t`.
pub proof fn lemma_run_completes_every_series<S: Scalar, M: Model<S>>(
    simtime: S,
    delta_t: S,
    solvertype: SolverType,
    model: M,
    end: Recording<S, M>,
)
    requires
        model.valid(),
        Recording::initial(simtime, delta_t, solvertype, model).run_leads_to(end),
        end.wf(),
    ensures
        end.simsize == sample_count(simtime, delta_t),
        end.time.len() == end.simsize,
        forall|i: int|
            0 <= i < end.model.signal_len() ==> (#[trigger] end.series(i)).len() == end.simsize,
        end.time[0] == S::nil(),
        end.rows[0] == model.signals_at(model.state_of()),
        forall|k: int|
            1 <= k < end.simsize ==> #[trigger] end.time[k] == S::of_index(k as usize).times(
                delta_t,
            ),
        forall|k: int|
            1 <= k < end.simsize ==> #[trigger] end.rows[k] == model.signals_at(
                iterated(
                    |x: Seq<S>| model.slope(x),
                    model.state_of(),
                    delta_t,
                    solvertype,
                    k as nat,
                ),
            ),
{
    let start = Recording::initial(simtime, delta_t, solvertype, model);
    assert(end.time.take(1)[0] == start.time[0]);
    assert(end.rows.take(1)[0] == start.rows[0]);
}

/// The table of a recording has one more column than the model has signals:
/// the header has a field for the time and one for each signal name, and so
/// has every line of values.
pub proof fn lemma_table_has_one_column_per_signal<S: Scalar, M: Model<S>>(
    rec: Recording<S, M>,
    t: int,
)
    requires
        rec.wf(),
        0 <= t < rec.time.len(),
    ensures
        header_texts(rec.model.names()).len() == 1 + rec.model.signal_len(),
        row_texts(rec.time[t], rec.rows[t]).len() == 1 + rec.model.signal_len(),
{
    rec.model.lemma_one_name_for_each_signal();
}

/// The place of the first of `names`, from `from` on, that equals `name`, or
/// the length of `names` where none does.
pub open spec fn first_named(names: Seq<Seq<char>>, name: Seq<char>, from: int) -> int
    decreases names.len() - from,
{
    if from < 0 || from >= names.len() {
        names.len() as int
    } else if names[from] == name {
        from
    } else {
        first_named(names, name, from + 1)
    }
}

/// The number of samples of a run over the horizon `simtime` with the step
/// `delta_t`: the whole part of `simtime / delta_t + 1 / 2`, and one more for
/// the initial sample.
pub open spec fn sample_count<S: Scalar>(simtime: S, delta_t: S) -> nat {
    (simtime.over(delta_t).plus(S::unit().over(S::of_index(2))).whole() + 1) as nat
}

/// The fields of one line of the table: the texts of the time and of each
/// signal value.
pub open spec fn row_texts<S: Scalar>(time: S, row: Seq<S>) -> Seq<Seq<char>> {
    seq![time.text()@] + Seq::new(row.len(), |i: int| row[i].text()@)
}

/// The fields of the header line: `time` and the signal names.
pub open spec fn header_texts(names: Seq<Seq<char>>) -> Seq<Seq<char>> {
    seq![seq!['t', 'i', 'm', 'e']] + names
}

/// A fixed-step simulation of one model, with the samples recorded so far.
pub struct Simulator<S, M> {
    simtime: S,
    delta_t: S,
    simsize: usize,
    solvertype: SolverType,
    model: M,
    time: Vec<S>,
    rows: Vec<Vec<S>>,
}

impl<S: Scalar, M: Model<S>> View for Simulator<S, M> {
    type V = Recording<S, M>;

    closed spec fn view(&self) -> Recording<S, M> {
        Recording {
            simtime: self.simtime,
            delta_t: self.delta_t,
            simsize: self.simsize as nat,
            solvertype: self.solvertype,
            model: self.model,
            time: self.time@,
            rows: Seq::new(self.rows@.len(), |t: int| self.rows@[t]@),
        }
    }
}

impl<S: Scalar, M: Model<S>> Simulator<S, M> {
    /// The simulation's invariant: that of its recording.
    pub open spec fn wf(&self) -> bool {
        self@.wf()
    }

    /// A simulation of `model` over the horizon `simtime` with the step
    /// `delta_t`, holding the initial sample: time `nil` and the model's
    /// signals as they are.
    pub fn new(simtime: S, delta_t: S, solvertype: SolverType, model: M) -> (r: Self)
        requires
            model.valid(),
            sample_count(simtime, delta_t) <= usize::MAX,
        ensures
            r.wf(),
            r@ == Recording::initial(simtime, delta_t, solvertype, model),
    {
        let half = S::one().div(S::from_index(2));
        let simsize: usize = simtime.div(delta_t).add(half).truncate() + 1;
        let mut time: Vec<S> = Vec::new();
        time.push(S::zero());
        let mut rows: Vec<Vec<S>> = Vec::new();
        rows.push(model.get_allsignals());
        let r = Simulator { simtime, delta_t, simsize, solvertype, model, time, rows };
        assert(r@.time =~= seq![S::nil()]);
        assert(r@.rows =~= seq![model.signals_at(model.state_of())]);
        r
    }

    /// Advances the model through the remaining `simsize - 1` steps and
    /// records one sample after each: step `k` is recorded at the time
    /// `k * delta_t` with the signals of the model in its state after `k`
    /// steps. Earlier samples stay as they are.
    pub fn run_sim(&mut self)
        requires
            old(self).wf(),
        ensures
            final(self).wf(),
            old(self)@.run_leads_to(final(self)@),
    {
        let ghost start = self@;
        let ghost base = start.time.len() as int;
        let mut idx: usize = 1;
        while idx < self.simsize
            invariant
                1 <= idx <= self.simsize,
                start.wf(),
                base == start.time.len(),
                self.wf(),
                self@.simtime == start.simtime,
                self@.delta_t == start.delta_t,
                self@.simsize == start.simsize,
                self@.solvertype == start.solvertype,
                self@.time.len() == base + idx - 1,
                self@.time.take(base) == start.time,
                self@.rows.take(base) == start.rows,
                forall|j: int|
                    base <= j < self@.time.len() ==> #[trigger] self@.time[j] == S::of_index(
                        (j - base + 1) as usize,
                    ).times(start.delta_t),
                forall|j: int|
                    base <= j < self@.rows.len() ==> #[trigger] self@.rows[j]
                        == start.model.signals_at(start.state_after((j - base + 1) as nat)),
                self@.model.state_of() == start.state_after((idx - 1) as nat),
                self@.model.names() == start.model.names(),
                self@.model.signal_len() == start.model.signal_len(),
                forall|x: Seq<S>| #[trigger] self@.model.slope(x) == start.model.slope(x),
                forall|x: Seq<S>| #[trigger]
                    self@.model.signals_at(x) == start.model.signals_at(x),
            decreases self.simsize - idx,
        {
            let ghost before = self@;
            self.time.push(S::from_index(idx).mul(self.delta_t));
            self.model.calc_nextstate(self.delta_t, &self.solvertype);
            let signals = self.model.get_allsignals();
            self.rows.push(signals);
            proof {
                let f = start.slope_fn();
                let prev = start.state_after((idx - 1) as nat);
                assert(self@.model.state_of() == stepped(
                    f,
                    prev,
                    start.delta_t,
                    start.solvertype,
                ));
                assert(self@.time =~= before.time.push(
                    S::of_index(idx).times(start.delta_t),
                ));
                assert(self@.rows =~= before.rows.push(signals@));
                assert(self@.time.take(base) =~= before.time.take(base));
                assert(self@.rows.take(base) =~= before.rows.take(base));
            }
            idx += 1;
        }
    }

    /// The table of the recorded samples as lines of text: a header with
    /// `time` and the signal names, then one line for each sample with its
    /// time and signal values, the fields of a line separated by commas.
    pub fn export_sim(&self) -> (r: Vec<String>)
        requires
            self.wf(),
        ensures
            r@.len() == 1 + self@.time.len(),
            r@[0]@ == comma_joined(header_texts(self@.model.names())),
            forall|t: int|
                0 <= t < self@.time.len() ==> (#[trigger] r@[1 + t])@ == comma_joined(
                    row_texts(self@.time[t], self@.rows[t]),
                ),
    {
        let mut seriesname: Vec<String> = Vec::new();
        seriesname.push("time".to_owned());
        let mut names = self.model.get_signals_info();
        let ghost got = names@;
        seriesname.append(&mut names);
        proof {
            reveal_strlit("time");
            let want = header_texts(self@.model.names());
            assert(seriesname@[0]@ =~= want[0]);
            assert forall|k: int| 0 <= k < want.len() implies views_of(seriesname@)[k]
                == want[k] by {
                if k > 0 {
                    assert(seriesname@[k] == got[k - 1]);
                }
            }
            assert(views_of(seriesname@) =~= want);
        }
        let mut lines: Vec<String> = Vec::new();
        lines.push(join_with_commas(&seriesname));
        let mut t: usize = 0;
        while t < self.time.len()
            invariant
                self.wf(),
                t <= self.time.len(),
                lines@.len() == 1 + t,
                lines@[0]@ == comma_joined(header_texts(self@.model.names())),
                forall|j: int|
                    0 <= j < t ==> (#[trigger] lines@[1 + j])@ == comma_joined(
                        row_texts(self@.time[j], self@.rows[j]),
                    ),
            decreases self.time.len() - t,
        {
            let row = &self.rows[t];
            assert(row@ == self@.rows[t as int]);
            let mut fields: Vec<String> = Vec::new();
            fields.push(self.time[t].to_text());
            let mut i: usize = 0;
            while i < row.len()
                invariant
                    i <= row.len(),
                    fields@.len() == 1 + i,
                    fields@[0]@ == self.time@[t as int].text()@,
                    forall|k: int|
                        1 <= k < 1 + i ==> (#[trigger] fields@[k])@ == row@[k - 1].text()@,
                decreases row.len() - i,
            {
                fields.push(row[i].to_text());
                i += 1;
            }
            assert(views_of(fields@) =~= row_texts(self@.time[t as int], self@.rows[t as int]));
            lines.push(join_with_commas(&fields));
            t += 1;
        }
        lines
    }

    /// The model in its current state.
    pub fn model(&self) -> (r: &M)
        ensures
            *r == self@.model,
    {
        &self.model
    }

    /// The number of samples of a complete run.
    pub fn simsize(&self) -> (r: usize)
        ensures
            r == self@.simsize,
    {
        self.simsize
    }

    /// The horizon of the run.
    pub fn simtime(&self) -> (r: S)
        ensures
            r == self@.simtime,
    {
        self.simtime
    }

    /// The recorded sample times, oldest first.
    pub fn time(&self) -> (r: &Vec<S>)
        ensures
            r@ == self@.time,
    {
        &self.time
    }

    /// The recorded values of signal `i`, oldest first.
    pub fn series(&self, i: usize) -> (r: Vec<S>)
        requires
            self.wf(),
            i < self@.model.signal_len(),
        ensures
            r@ == self@.series(i as int),
    {
        let mut out: Vec<S> = Vec::new();
        let mut t: usize = 0;
        while t < self.rows.len()
            invariant
                self.wf(),
                i < self@.model.signal_len(),
                t <= self.rows.len(),
                out@ == self@.series(i as int).take(t as int),
            decreases self.rows.len() - t,
        {
            assert(self.rows@[t as int]@ == self@.rows[t as int]);
            out.push(self.rows[t][i]);
            t += 1;
            assert(out@ =~= self@.series(i as int).take(t as int));
        }
        assert(self@.series(i as int).take(self.rows.len() as int) =~= self@.series(i as int));
        out
    }

    /// The series recorded under `name`: the times under `time`, else the
    /// values of the first signal of that name.
    pub fn series_named(&self, name: &str) -> (r: Option<Vec<S>>)
        requires
            self.wf(),
        ensures
            match (r, self@.named(name@)) {
                (Some(v), Some(w)) => v@ == w,
                (None, None) => true,
                _ => false,
            },
    {
        let key = name.to_owned();
        let time_key = "time".to_owned();
        proof {
            reveal_strlit("time");
            assert(time_key@ =~= seq!['t', 'i', 'm', 'e']);
        }
        if key.eq(&time_key) {
            let times = copied(self.time.as_slice());
            return Some(times);
        }
        let names = self.model.get_signals_info();
        let mut i: usize = 0;
        while i < names.len()
            invariant
                self.wf(),
                i <= names.len(),
                key@ == name@,
                name@ != seq!['t', 'i', 'm', 'e'],
                names@.len() == self@.model.signal_len(),
                names@.len() == self@.model.names().len(),
                forall|j: int|
                    0 <= j < names@.len() ==> (#[trigger] names@[j])@ == self@.model.names()[j],
                first_named(self@.model.names(), name@, 0) == first_named(
                    self@.model.names(),
                    name@,
                    i as int,
                ),
            decreases names.len() - i,
        {
            if names[i].eq(&key) {
                return Some(self.series(i));
            }
            i += 1;
        }
        None
    }
}

} // verus!

use nalgebra::{Complex, DMatrix, DVector};
use simsolver::{
    Field, Model, ModelError, Scalar, Simulator, SolverType, SpaceStateModel, Whole,
};

/// Double-precision numbers as the scalar of a simulation.
#[derive(Clone, Copy, Debug, PartialEq)]
struct Real(f64);

impl Scalar for Real {
    fn nil() -> Self {
        Real(0.0)
    }

    fn unit() -> Self {
        Real(1.0)
    }

    fn plus(self, rhs: Self) -> Self {
        Real(self.0 + rhs.0)
    }

    fn minus(self, rhs: Self) -> Self {
        Real(self.0 - rhs.0)
    }

    fn times(self, rhs: Self) -> Self {
        Real(self.0 * rhs.0)
    }

    fn over(self, rhs: Self) -> Self {
        Real(self.0 / rhs.0)
    }

    fn negated(self) -> Self {
        Real(-self.0)
    }

    fn of_index(i: usize) -> Self {
        Real(i as f64)
    }

    fn whole(self) -> usize {
        self.0 as usize
    }

    fn text(self) -> String {
        self.0.to_string()
    }

    fn cell(self) -> String {
        format!("{:>15.5}", self.0)
    }

    fn zero() -> Self {
        Self::nil()
    }

    fn one() -> Self {
        Self::unit()
    }

    fn add(self, rhs: Self) -> Self {
        self.plus(rhs)
    }

    fn sub(self, rhs: Self) -> Self {
        self.minus(rhs)
    }

    fn mul(self, rhs: Self) -> Self {
        self.times(rhs)
    }

    fn div(self, rhs: Self) -> Self {
        self.over(rhs)
    }

    fn neg(self) -> Self {
        self.negated()
    }

    fn from_index(i: usize) -> Self {
        Self::of_index(i)
    }

    fn truncate(self) -> usize {
        self.whole()
    }

    fn to_text(self) -> String {
        self.text()
    }

    fn to_cell(self) -> String {
        self.cell()
    }
}

fn reals(values: &[f64]) -> Vec<Real> {
    values.iter().map(|v| Real(*v)).collect()
}

fn floats(values: &[Real]) -> Vec<f64> {
    values.iter().map(|v| v.0).collect()
}

fn decay() -> SpaceStateModel<Real> {
    let mut model = SpaceStateModel::<Real>::new(1, 1, 1);
    model.set_mat_a(&reals(&[-1.0])).unwrap();
    model.set_mat_c(&reals(&[1.0])).unwrap();
    model.init_state(&reals(&[1.0])).unwrap();
    model
}

/// The value at `s` of the transfer function that the model realises:
/// `C (sI - A)^-1 B + D`.
fn realised(model: &SpaceStateModel<Real>, s: Complex<f64>) -> Complex<f64> {
    let n = model.state_dim();
    let a = DMatrix::from_row_slice(n, n, &floats(model.mat_a())).map(|v| Complex::new(v, 0.0));
    let b = DVector::from_vec(floats(model.mat_b())).map(|v| Complex::new(v, 0.0));
    let c = DMatrix::from_row_slice(1, n, &floats(model.mat_c())).map(|v| Complex::new(v, 0.0));
    let d = model.mat_d()[0].0;
    let lhs = DMatrix::<Complex<f64>>::identity(n, n) * s - a;
    let x = lhs.lu().solve(&b).unwrap();
    (c * x)[0] + Complex::new(d, 0.0)
}

fn polynomial(coefficients: &[f64], s: Complex<f64>) -> Complex<f64> {
    coefficients.iter().fold(Complex::new(0.0, 0.0), |acc, c| acc * s + Complex::new(*c, 0.0))
}

#[test]
fn new_model_is_cleared() {
    let model = SpaceStateModel::<Real>::new(2, 1, 3);
    assert_eq!(model.state_dim(), 2);
    assert_eq!(model.input_dim(), 1);
    assert_eq!(model.output_dim(), 3);
    assert_eq!(floats(model.mat_a()), vec![0.0; 4]);
    assert_eq!(floats(model.mat_b()), vec![0.0; 2]);
    assert_eq!(floats(model.mat_c()), vec![0.0; 6]);
    assert_eq!(floats(model.mat_d()), vec![0.0; 3]);
    assert_eq!(floats(model.get_state()), vec![0.0; 2]);
    assert_eq!(floats(model.input()), vec![0.0; 1]);
}

#[test]
fn setters_accept_the_expected_length() {
    let mut model = SpaceStateModel::<Real>::new(2, 1, 2);
    assert_eq!(model.set_mat_a(&reals(&[0.0, 1.0, -1.0, -1.0])), Ok(()));
    assert_eq!(model.set_mat_b(&reals(&[0.5, 1.5])), Ok(()));
    assert_eq!(model.set_mat_c(&reals(&[1.0, 2.0, 3.0, 4.0])), Ok(()));
    assert_eq!(model.set_mat_d(&reals(&[7.0, 8.0])), Ok(()));
    assert_eq!(model.set_x(&reals(&[9.0, 10.0])), Ok(()));
    assert_eq!(model.set_u(&reals(&[11.0])), Ok(()));
    assert_eq!(floats(model.mat_a()), vec![0.0, 1.0, -1.0, -1.0]);
    assert_eq!(floats(model.mat_b()), vec![0.5, 1.5]);
    assert_eq!(floats(model.mat_c()), vec![1.0, 2.0, 3.0, 4.0]);
    assert_eq!(floats(model.mat_d()), vec![7.0, 8.0]);
    assert_eq!(floats(model.get_state()), vec![9.0, 10.0]);
    assert_eq!(floats(model.input()), vec![11.0]);
}

#[test]
fn matrix_setters_refuse_other_lengths_and_change_nothing() {
    let mut model = SpaceStateModel::<Real>::new(2, 1, 3);
    model.set_mat_a(&reals(&[1.0, 2.0, 3.0, 4.0])).unwrap();
    model.set_mat_b(&reals(&[5.0, 6.0])).unwrap();
    model.set_mat_c(&reals(&[1.0, 2.0, 3.0, 4.0, 5.0, 6.0])).unwrap();
    model.set_mat_d(&reals(&[7.0, 8.0, 9.0])).unwrap();

    assert_eq!(
        model.set_mat_a(&reals(&[1.0, 2.0, 3.0])),
        Err(ModelError::DimensionMismatch { field: Field::MatrixA, expected: 4, given: 3 })
    );
    assert_eq!(
        model.set_mat_b(&reals(&[1.0, 2.0, 3.0])),
        Err(ModelError::DimensionMismatch { field: Field::MatrixB, expected: 2, given: 3 })
    );
    assert_eq!(
        model.set_mat_c(&reals(&[])),
        Err(ModelError::DimensionMismatch { field: Field::MatrixC, expected: 6, given: 0 })
    );
    assert_eq!(
        model.set_mat_d(&reals(&[1.0; 4])),
        Err(ModelError::DimensionMismatch { field: Field::MatrixD, expected: 3, given: 4 })
    );
    assert_eq!(floats(model.mat_a()), vec![1.0, 2.0, 3.0, 4.0]);
    assert_eq!(floats(model.mat_b()), vec![5.0, 6.0]);
    assert_eq!(floats(model.mat_c()), vec![1.0, 2.0, 3.0, 4.0, 5.0, 6.0]);
    assert_eq!(floats(model.mat_d()), vec![7.0, 8.0, 9.0]);
}

#[test]
fn vector_setters_refuse_other_lengths_and_change_nothing() {
    let mut model = SpaceStateModel::<Real>::new(2, 1, 1);
    model.init_state(&reals(&[1.0, 2.0])).unwrap();
    model.set_u(&reals(&[3.0])).unwrap();
    assert_eq!(
        model.init_state(&reals(&[1.0])),
        Err(ModelError::DimensionMismatch { field: Field::State, expected: 2, given: 1 })
    );
    assert_eq!(
        model.set_x(&reals(&[1.0, 2.0, 3.0])),
        Err(ModelError::DimensionMismatch { field: Field::State, expected: 2, given: 3 })
    );
    assert_eq!(
        model.set_u(&reals(&[])),
        Err(ModelError::DimensionMismatch { field: Field::Input, expected: 1, given: 0 })
    );
    assert_eq!(
        model.set_state(reals(&[4.0])),
        Err(ModelError::DimensionMismatch { field: Field::State, expected: 2, given: 1 })
    );
    assert_eq!(floats(model.get_state()), vec![1.0, 2.0]);
    assert_eq!(floats(model.input()), vec![3.0]);
    assert_eq!(model.set_state(reals(&[4.0, 5.0])), Ok(()));
    assert_eq!(floats(model.get_state()), vec![4.0, 5.0]);
}

#[test]
fn derivative_uses_the_probe_and_the_retained_input() {
    let mut model = SpaceStateModel::<Real>::new(2, 1, 1);
    model.set_mat_a(&reals(&[1.0, 2.0, 3.0, 4.0])).unwrap();
    model.set_mat_b(&reals(&[10.0, 20.0])).unwrap();
    model.init_state(&reals(&[100.0, 100.0])).unwrap();
    model.set_u(&reals(&[0.5])).unwrap();
    let slope = model.slopefunc(&reals(&[1.0, -1.0]));
    assert_eq!(floats(&slope), vec![1.0 - 2.0 + 5.0, 3.0 - 4.0 + 10.0]);
    assert_eq!(floats(model.get_state()), vec![100.0, 100.0]);
}

#[test]
fn observation_is_cx_plus_du() {
    let mut model = SpaceStateModel::<Real>::new(2, 1, 2);
    model.set_mat_c(&reals(&[1.0, 2.0, 3.0, 4.0])).unwrap();
    model.set_mat_d(&reals(&[0.5, 0.25])).unwrap();
    model.init_state(&reals(&[1.0, 10.0])).unwrap();
    model.set_u(&reals(&[4.0])).unwrap();
    assert_eq!(floats(&model.get_observation()), vec![21.0 + 2.0, 43.0 + 1.0]);
}

#[test]
fn signals_are_input_state_observation_in_the_order_of_the_names() {
    let mut model = SpaceStateModel::<Real>::new(2, 1, 2);
    model.set_mat_c(&reals(&[1.0, 0.0, 0.0, 2.0])).unwrap();
    model.init_state(&reals(&[3.0, 4.0])).unwrap();
    model.set_u(&reals(&[9.0])).unwrap();
    assert_eq!(model.get_signals_info(), vec!["u_0", "x_0", "x_1", "y_0", "y_1"]);
    assert_eq!(floats(&model.get_allsignals()), vec![9.0, 3.0, 4.0, 3.0, 8.0]);
}

#[test]
fn signal_names_count_in_decimal() {
    let model = SpaceStateModel::<Real>::new(12, 0, 0);
    let names = model.get_signals_info();
    assert_eq!(names.len(), 12);
    assert_eq!(names[0], "x_0");
    assert_eq!(names[9], "x_9");
    assert_eq!(names[10], "x_10");
    assert_eq!(names[11], "x_11");
}

#[test]
fn from_tf_refuses_a_denominator_of_degree_zero() {
    let r = SpaceStateModel::<Real>::from_tf(&reals(&[1.0]), &reals(&[2.0]));
    assert_eq!(r.err(), Some(ModelError::InvalidOrder));
    let r = SpaceStateModel::<Real>::from_tf(&reals(&[]), &reals(&[]));
    assert_eq!(r.err(), Some(ModelError::InvalidOrder));
    let r = SpaceStateModel::<Real>::from_tf(&reals(&[1.0, 2.0, 3.0]), &reals(&[2.0]));
    assert_eq!(r.err(), Some(ModelError::InvalidOrder));
}

#[test]
fn from_tf_refuses_an_improper_function() {
    let r = SpaceStateModel::<Real>::from_tf(&reals(&[1.0, 2.0, 3.0]), &reals(&[1.0, 2.0]));
    assert_eq!(r.err(), Some(ModelError::ImproperTransferFunction));
}

#[test]
fn from_tf_builds_the_canonical_form_of_a_degree_four_function() {
    let num = [3.0, 1.0, 1.0, 5.0, 4.0];
    let den = [2.0, 2.0, 3.0, 4.0, 5.0];
    let model = SpaceStateModel::<Real>::from_tf(&reals(&num), &reals(&den)).unwrap();
    assert_eq!(model.state_dim(), 4);
    assert_eq!(model.input_dim(), 1);
    assert_eq!(model.output_dim(), 1);
    assert_eq!(
        floats(model.mat_a()),
        vec![
            0.0, 0.0, 0.0, -2.5, //
            1.0, 0.0, 0.0, -2.0, //
            0.0, 1.0, 0.0, -1.5, //
            0.0, 0.0, 1.0, -1.0,
        ]
    );
    assert_eq!(floats(model.mat_b()), vec![-5.5, -3.5, -4.0, -2.5]);
    assert_eq!(floats(model.mat_c()), vec![0.0, 0.0, 0.0, 1.0]);
    assert_eq!(floats(model.mat_d()), vec![3.0]);
    assert_eq!(floats(model.get_state()), vec![0.0; 4]);
    assert_eq!(floats(model.input()), vec![0.0]);
}

#[test]
fn from_tf_of_a_strictly_proper_function_has_no_feedthrough() {
    let model =
        SpaceStateModel::<Real>::from_tf(&reals(&[1.0, 5.0, 4.0]), &reals(&[1.0, 2.0, 3.0, 4.0, 5.0]))
            .unwrap();
    assert_eq!(floats(model.mat_b()), vec![4.0, 5.0, 1.0, 0.0]);
    assert_eq!(floats(model.mat_d()), vec![0.0]);
    assert_eq!(floats(model.mat_a())[3], -5.0);
}

#[test]
fn canonical_form_realises_a_monic_transfer_function() {
    let num = [3.0, 1.0, 1.0, 5.0, 4.0];
    let den = [1.0, 2.0, 3.0, 4.0, 5.0];
    let model = SpaceStateModel::<Real>::from_tf(&reals(&num), &reals(&den)).unwrap();
    for w in [0.1, 0.5, 1.0, 3.0, 10.0] {
        let s = Complex::new(0.0, w);
        let want = polynomial(&num, s) / polynomial(&den, s);
        assert!((realised(&model, s) - want).norm() < 1e-9);
    }
    let strictly = SpaceStateModel::<Real>::from_tf(&reals(&[1.0, 5.0, 4.0]), &reals(&den)).unwrap();
    for w in [0.1, 1.0, 3.0] {
        let s = Complex::new(0.0, w);
        let want = polynomial(&[1.0, 5.0, 4.0], s) / polynomial(&den, s);
        assert!((realised(&strictly, s) - want).norm() < 1e-9);
    }
}

#[test]
fn euler_step_is_state_plus_slope_times_step() {
    let mut model = SpaceStateModel::<Real>::new(2, 1, 1);
    model.set_mat_a(&reals(&[0.0, 1.0, -1.0, -1.0])).unwrap();
    model.set_mat_b(&reals(&[0.0, 1.0])).unwrap();
    model.init_state(&reals(&[1.0, 2.0])).unwrap();
    model.set_u(&reals(&[4.0])).unwrap();
    model.calc_nextstate(Real(0.5), &SolverType::Euler);
    assert_eq!(floats(model.get_state()), vec![1.0 + 0.5 * 2.0, 2.0 + 0.5 * (-1.0 - 2.0 + 4.0)]);
    assert_eq!(floats(model.input()), vec![4.0]);
}

#[test]
fn runge_kutta_step_of_the_decay_is_the_fourth_order_polynomial() {
    let mut model = decay();
    model.calc_nextstate(Real(0.5), &SolverType::RungeKutta);
    let h: f64 = 0.5;
    let want = 1.0 - h + h * h / 2.0 - h * h * h / 6.0 + h * h * h * h / 24.0;
    assert!((model.get_state()[0].0 - want).abs() < 1e-15);
}

#[test]
fn euler_converges_on_the_decay() {
    let mut sim = Simulator::new(Real(1.0), Real(0.001), SolverType::Euler, decay());
    sim.run_sim();
    let reached = sim.model().get_state()[0].0;
    assert!((reached - (-1.0f64).exp()).abs() < 1e-2);
}

#[test]
fn runge_kutta_converges_on_the_decay_and_beats_euler() {
    let mut euler = Simulator::new(Real(1.0), Real(0.001), SolverType::Euler, decay());
    euler.run_sim();
    let mut rk = Simulator::new(Real(1.0), Real(0.001), SolverType::RungeKutta, decay());
    rk.run_sim();
    let exact = (-1.0f64).exp();
    let rk_error = (rk.model().get_state()[0].0 - exact).abs();
    let euler_error = (euler.model().get_state()[0].0 - exact).abs();
    assert!(rk_error < 1e-8);
    assert!(rk_error < euler_error);
}

#[test]
fn sample_count_is_rounded_quotient_plus_one() {
    assert_eq!(Simulator::new(Real(1.0), Real(0.001), SolverType::Euler, decay()).simsize(), 1001);
    assert_eq!(Simulator::new(Real(20.0), Real(0.1), SolverType::Euler, decay()).simsize(), 201);
    assert_eq!(Simulator::new(Real(1.0), Real(0.4), SolverType::Euler, decay()).simsize(), 4);
    assert_eq!(Simulator::new(Real(0.0), Real(0.1), SolverType::Euler, decay()).simsize(), 1);
}

#[test]
fn a_new_simulation_holds_the_initial_sample() {
    let sim = Simulator::new(Real(1.0), Real(0.1), SolverType::Euler, decay());
    assert_eq!(floats(sim.time()), vec![0.0]);
    assert_eq!(floats(&sim.series(0)), vec![0.0]);
    assert_eq!(floats(&sim.series(1)), vec![1.0]);
    assert_eq!(floats(&sim.series(2)), vec![1.0]);
}

#[test]
fn every_series_has_one_entry_for_each_step() {
    let mut sim = Simulator::new(Real(20.0), Real(0.1), SolverType::RungeKutta, decay());
    sim.run_sim();
    assert_eq!(sim.simsize(), 201);
    assert_eq!(sim.time().len(), 201);
    for i in 0..3 {
        assert_eq!(sim.series(i).len(), 201);
    }
    let time = floats(sim.time());
    for idx in 0..201 {
        assert_eq!(time[idx], idx as f64 * 0.1);
    }
    for idx in 1..201 {
        assert!(time[idx - 1] < time[idx]);
    }
}

#[test]
fn recorded_samples_follow_the_steps() {
    let mut sim = Simulator::new(Real(1.0), Real(0.5), SolverType::Euler, decay());
    sim.run_sim();
    assert_eq!(floats(sim.time()), vec![0.0, 0.5, 1.0]);
    assert_eq!(floats(&sim.series(0)), vec![0.0, 0.0, 0.0]);
    assert_eq!(floats(&sim.series(1)), vec![1.0, 0.5, 0.25]);
    assert_eq!(floats(&sim.series(2)), vec![1.0, 0.5, 0.25]);
}

#[test]
fn export_has_a_header_and_one_line_for_each_sample() {
    let mut sim = Simulator::new(Real(20.0), Real(0.1), SolverType::RungeKutta, decay());
    sim.run_sim();
    let lines = sim.export_sim();
    assert_eq!(lines.len(), 1 + 201);
    assert_eq!(lines[0], "time,u_0,x_0,y_0");
    for line in &lines {
        assert_eq!(line.split(',').count(), 4);
    }
}

#[test]
fn export_writes_each_value_in_decimal() {
    let mut sim = Simulator::new(Real(1.0), Real(0.5), SolverType::Euler, decay());
    sim.run_sim();
    assert_eq!(
        sim.export_sim(),
        vec!["time,u_0,x_0,y_0", "0,0,1,1", "0.5,0,0.5,0.5", "1,0,0.25,0.25"]
    );
}

#[test]
fn printed_model_shows_each_matrix_under_its_heading() {
    let mut model = SpaceStateModel::<Real>::new(2, 1, 1);
    model.set_mat_a(&reals(&[0.0, 1.0, -1.0, -1.5])).unwrap();
    model.set_mat_b(&reals(&[0.0, 1.0])).unwrap();
    model.set_mat_c(&reals(&[1.0, 0.0])).unwrap();
    let want = [
        "Matrix A (2 x 2): \n",
        "|        0.00000         1.00000 |\n",
        "|       -1.00000        -1.50000 |\n",
        "\n",
        "Matrix B (2 x 1): \n",
        "|        0.00000 |\n",
        "|        1.00000 |\n",
        "\n",
        "Matrix C (1 x 2): \n",
        "|        1.00000         0.00000 |\n",
        "\n",
        "Matrix D (1 x 1): \n",
        "|        0.00000 |\n",
        "\n",
    ]
    .concat();
    assert_eq!(model.to_text(), want);
}

#[test]
fn printed_model_without_states_has_headings_only() {
    let model = SpaceStateModel::<Real>::new(0, 0, 0);
    assert_eq!(
        model.to_text(),
        "Matrix A (0 x 0): \n\nMatrix B (0 x 0): \n\nMatrix C (0 x 0): \n\nMatrix D (0 x 0): \n\n"
    );
}

#[test]
fn whole_numbers_wrap_and_divide_toward_zero() {
    assert_eq!(Whole(2).add(Whole(3)), Whole(5));
    assert_eq!(Whole(i64::MAX).add(Whole(1)), Whole(i64::MIN));
    assert_eq!(Whole(2).sub(Whole(3)), Whole(-1));
    assert_eq!(Whole(i64::MIN).sub(Whole(1)), Whole(i64::MAX));
    assert_eq!(Whole(-4).mul(Whole(3)), Whole(-12));
    assert_eq!(Whole(i64::MAX).mul(Whole(2)), Whole(-2));
    assert_eq!(Whole(7).div(Whole(2)), Whole(3));
    assert_eq!(Whole(-7).div(Whole(2)), Whole(-3));
    assert_eq!(Whole(7).div(Whole(0)), Whole(0));
    assert_eq!(Whole(i64::MIN).div(Whole(-1)), Whole(0));
    assert_eq!(Whole(5).neg(), Whole(-5));
    assert_eq!(Whole(i64::MIN).neg(), Whole(i64::MIN));
    assert_eq!(Whole::zero(), Whole(0));
    assert_eq!(Whole::one(), Whole(1));
}

#[test]
fn whole_numbers_convert_to_and_from_counts() {
    assert_eq!(Whole::from_index(0), Whole(0));
    assert_eq!(Whole::from_index(42), Whole(42));
    assert_eq!(Whole::from_index(usize::MAX), Whole(i64::MAX));
    assert_eq!(Whole(42).truncate(), 42);
    assert_eq!(Whole(0).truncate(), 0);
    assert_eq!(Whole(-3).truncate(), 0);
}

#[test]
fn whole_numbers_are_written_in_decimal() {
    assert_eq!(Whole(0).to_text(), "0");
    assert_eq!(Whole(1205).to_text(), "1205");
    assert_eq!(Whole(-17).to_text(), "-17");
    assert_eq!(Whole(-17).decimal_text(), "-17");
    assert_eq!(Whole(i64::MIN).to_text(), "-9223372036854775808");
    assert_eq!(Whole(-17).to_cell(), "            -17");
    assert_eq!(Whole(-17).aligned_text(), "            -17");
    assert_eq!(Whole(1234567890123456).to_cell(), "1234567890123456");
}

#[test]
fn whole_number_simulation_is_exact() {
    let mut model = SpaceStateModel::<Whole>::new(2, 1, 1);
    model.set_mat_a(&[Whole(0), Whole(1), Whole(-1), Whole(0)]).unwrap();
    model.set_mat_b(&[Whole(0), Whole(1)]).unwrap();
    model.set_mat_c(&[Whole(1), Whole(0)]).unwrap();
    model.init_state(&[Whole(3), Whole(0)]).unwrap();
    model.set_u(&[Whole(2)]).unwrap();
    let mut sim = Simulator::new(Whole(2), Whole(1), SolverType::Euler, model);
    assert_eq!(sim.simsize(), 3);
    sim.run_sim();
    assert_eq!(sim.time(), &vec![Whole(0), Whole(1), Whole(2)]);
    assert_eq!(sim.series(1), vec![Whole(3), Whole(3), Whole(2)]);
    assert_eq!(sim.series(2), vec![Whole(0), Whole(-1), Whole(-2)]);
    assert_eq!(sim.export_sim(), vec!["time,u_0,x_0,x_1,y_0", "0,2,3,0,3", "1,2,3,-1,3", "2,2,2,-2,2"]);
}

#[test]
fn whole_number_transfer_function_is_converted() {
    let model =
        SpaceStateModel::<Whole>::from_tf(&[Whole(5)], &[Whole(1), Whole(3), Whole(2)]).unwrap();
    assert_eq!(model.mat_a(), &vec![Whole(0), Whole(-2), Whole(1), Whole(-3)]);
    assert_eq!(model.mat_b(), &vec![Whole(5), Whole(0)]);
    assert_eq!(model.mat_c(), &vec![Whole(0), Whole(1)]);
    assert_eq!(model.mat_d(), &vec![Whole(0)]);
}

#[test]
fn series_are_found_by_name() {
    let mut sim = Simulator::new(Real(1.0), Real(0.5), SolverType::Euler, decay());
    sim.run_sim();
    assert_eq!(sim.series_named("time").map(|v| floats(&v)), Some(vec![0.0, 0.5, 1.0]));
    assert_eq!(sim.series_named("u_0").map(|v| floats(&v)), Some(vec![0.0, 0.0, 0.0]));
    assert_eq!(sim.series_named("x_0").map(|v| floats(&v)), Some(vec![1.0, 0.5, 0.25]));
    assert_eq!(sim.series_named("y_0").map(|v| floats(&v)), Some(vec![1.0, 0.5, 0.25]));
    assert_eq!(sim.series_named("x_1"), None);
    assert_eq!(sim.series_named(""), None);
}

#[test]
fn a_second_run_continues_the_recording() {
    let mut sim = Simulator::new(Real(1.0), Real(0.5), SolverType::Euler, decay());
    sim.run_sim();
    sim.run_sim();
    assert_eq!(floats(sim.time()), vec![0.0, 0.5, 1.0, 0.5, 1.0]);
    assert_eq!(floats(&sim.series(1)), vec![1.0, 0.5, 0.25, 0.125, 0.0625]);
    assert_eq!(sim.export_sim().len(), 6);
}

#[test]
fn runge_kutta_probes_use_the_retained_input() {
    let mut model = SpaceStateModel::<Real>::new(1, 1, 1);
    model.set_mat_b(&reals(&[1.0])).unwrap();
    model.set_u(&reals(&[3.0])).unwrap();
    model.calc_nextstate(Real(0.5), &SolverType::RungeKutta);
    assert_eq!(floats(model.get_state()), vec![1.5]);
}

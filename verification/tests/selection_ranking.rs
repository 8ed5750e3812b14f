//! Chunk windows, tournaments, and ranking.

use genetic::{make_chunk, sort_by_fitness, tournament, DetRandom, FatalError, Problem,
    RandomSource, ThreadRandom};

/// Order-preserving integer encoding of a finite double.
fn key(x: f64) -> i64 {
    let b = x.to_bits() as i64;
    b ^ (((b >> 63) as u64) >> 1) as i64
}

/// Individuals are vectors of doubles scored by their sum.
struct SumProblem;

impl Problem for SumProblem {
    type Individual = Vec<f64>;

    fn spec_fitness(ind: Vec<f64>) -> Option<i64> {
        let total: f64 = ind.iter().sum();
        if total.is_nan() {
            None
        } else {
            Some(key(total))
        }
    }

    fn initial_pop(&mut self, _pop_size: usize) -> Vec<Vec<f64>> {
        unreachable!()
    }

    fn fitness(&mut self, individual: &Vec<f64>) -> Option<i64> {
        let total: f64 = individual.iter().sum();
        if total.is_nan() {
            None
        } else {
            Some(key(total))
        }
    }

    fn crossover(&mut self, a: &Vec<f64>, b: &Vec<f64>) -> (Vec<f64>, Vec<f64>) {
        let cut_at = 1;
        let mut c = a[..cut_at].to_vec();
        let mut x = b[cut_at..].to_vec();
        let mut y = a[cut_at..].to_vec();
        c.append(&mut x);
        let mut d = b[..cut_at].to_vec();
        d.append(&mut y);
        (c, d)
    }

    fn mutate(&mut self, _individual: &mut Vec<f64>) {
        unreachable!()
    }
}

#[test]
fn evolve_sort() {
    let goal = vec![vec![0.1, 0.4], vec![0.2, 0.2], vec![0.1, 0.2]];
    let mut population = Vec::<Vec<f64>>::new();
    population.push(vec![0.1, 0.4]);
    population.push(vec![0.1, 0.2]);
    population.push(vec![0.2, 0.2]);
    let mut problem = SumProblem;
    assert!(sort_by_fitness(&mut population, &mut problem).is_ok());
    assert_eq!(goal, population);
}

#[test]
fn sort_rejects_non_orderable() {
    let before = vec![vec![0.1], vec![f64::NAN], vec![0.3]];
    let mut population = before.clone();
    let mut problem = SumProblem;
    let r = sort_by_fitness(&mut population, &mut problem);
    assert!(matches!(r, Err(FatalError::NonOrderableFitness)));
    // A failed sort moves nothing.
    assert_eq!(population.len(), 3);
    assert_eq!(population[0], before[0]);
    assert!(population[1][0].is_nan());
    assert_eq!(population[2], before[2]);
}

#[test]
fn sort_empty_population() {
    let mut population = Vec::<Vec<f64>>::new();
    let mut problem = SumProblem;
    assert!(sort_by_fitness(&mut population, &mut problem).is_ok());
    assert_eq!(population.len(), 0);
}

#[test]
fn sort_keeps_ties_stable() {
    let mut population = vec![vec![0.2, 0.1], vec![0.1, 0.2], vec![0.4]];
    let mut problem = SumProblem;
    assert!(sort_by_fitness(&mut population, &mut problem).is_ok());
    // 0.4 wins; the two equal sums keep their original order.
    assert_eq!(population, vec![vec![0.4], vec![0.2, 0.1], vec![0.1, 0.2]]);
}

#[test]
fn tournament_chunk() {
    let mut rng = ThreadRandom::new();
    let pop_size = 10;
    let possible_size = 2..6;
    let result = make_chunk(pop_size, &possible_size, &mut rng);
    assert!(result.end <= pop_size);
    assert!(
        result.end - result.start <= possible_size.end
            && result.end - result.start >= possible_size.start
    );
}

#[test]
fn tournament_chunk_closed() {
    let mut rng = ThreadRandom::new();
    let pop_size = 10;
    let possible_size = 6..7;
    let result = make_chunk(pop_size, &possible_size, &mut rng);
    assert_eq!(result.end - result.start, 6);
    let possible_size = 1..2;
    let result = make_chunk(pop_size, &possible_size, &mut rng);
    assert_eq!(result.end - result.start, 1);
    let possible_size = 9..10;
    let result = make_chunk(pop_size, &possible_size, &mut rng);
    assert_eq!(result.end - result.start, 9);
}

#[test]
fn chunk_windows_stay_inside_population() {
    // Every window respects the width bounds and the population bounds;
    // this fails if the underlying draw ever lands on or past its bound.
    let mut rng = ThreadRandom::new();
    for _ in 0..200 {
        let chunk = make_chunk(10, &(2..6), &mut rng);
        let width = chunk.end - chunk.start;
        assert!(width >= 2 && width < 6);
        assert!(chunk.end <= 10);
        assert!(chunk.start < chunk.end);
    }
}

#[test]
fn deterministic_draws_repeat() {
    let mut a = DetRandom::new(7);
    let mut b = DetRandom::new(7);
    for bound in 1..50u64 {
        let x = a.next_below(bound);
        let y = b.next_below(bound);
        assert_eq!(x, y);
        assert!(x < bound);
    }
}

#[test]
fn zero_seed_draws_stay_below_bound() {
    let mut rng = DetRandom::new(0);
    for _ in 0..100 {
        assert!(rng.next_below(3) < 3);
    }
}

/// Individuals are plain integers; the score is the value itself.
struct Identity;

impl Problem for Identity {
    type Individual = i64;

    fn spec_fitness(ind: i64) -> Option<i64> {
        Some(ind)
    }

    fn initial_pop(&mut self, _pop_size: usize) -> Vec<i64> {
        unreachable!()
    }

    fn fitness(&mut self, individual: &i64) -> Option<i64> {
        Some(*individual)
    }

    fn crossover(&mut self, a: &i64, b: &i64) -> (i64, i64) {
        (*a, *b)
    }

    fn mutate(&mut self, _individual: &mut i64) {}
}

#[test]
fn tournament_picks_an_index_inside_the_population() {
    let mut problem = Identity;
    let population: Vec<i64> = vec![5, 1, 9, 3, 7, 2, 8, 4];
    let mut rng = DetRandom::new(11);
    for _ in 0..50 {
        let winner = tournament(&mut problem, &population, &(2..5), 3, &mut rng).unwrap();
        assert!(winner < population.len());
    }
}

/// Every score is non-orderable.
struct Unordered;

impl Problem for Unordered {
    type Individual = i64;

    fn spec_fitness(_ind: i64) -> Option<i64> {
        None
    }

    fn initial_pop(&mut self, _pop_size: usize) -> Vec<i64> {
        unreachable!()
    }

    fn fitness(&mut self, _individual: &i64) -> Option<i64> {
        None
    }

    fn crossover(&mut self, a: &i64, b: &i64) -> (i64, i64) {
        (*a, *b)
    }

    fn mutate(&mut self, _individual: &mut i64) {}
}

#[test]
fn tournament_fails_on_non_orderable_score() {
    let mut problem = Unordered;
    let population: Vec<i64> = vec![5, 1, 9, 3];
    let mut rng = DetRandom::new(11);
    let r = tournament(&mut problem, &population, &(1..3), 3, &mut rng);
    assert!(matches!(r, Err(FatalError::NonOrderableFitness)));
}

# gstools_core

Local (moving-neighbourhood) kriging and covariance models for GSTools.

- `src/` is the verified library (Verus): the error type of local kriging and
  its messages, the block layout of each local kriging system (which entry of
  the matrix and of the right-hand side holds which covariance, constraint or
  drift term), the rule that a failed run reports its first failing target
  point, and the order in which covariance-model parameters are validated.
- `app/` is the floating-point half built on it: the covariance models
  (Gaussian, exponential, Matérn), the neighbour search, the dense solver that
  fills and solves each local system, JSON parsing of model specifications and
  the Python bindings.
